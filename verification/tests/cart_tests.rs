use rust_template::app_error::AppError;
use rust_template::cart::{
    AddProductCart, Cart, CartItem, CartItemAction, CartService, CartStatus, CartWithItems,
    DeleteProductCart, find_cart_item, find_product_for,
};
use rust_template::ids::Id;
use rust_template::product::Product;

fn mk_item(id: u128, product_id: u128, unit_price: i64, quantity: i32) -> CartItem {
    CartItem {
        id: Id(id),
        cart_id: Id(1),
        product_id: Id(product_id),
        variant_id: None,
        unit_price,
        quantity,
        line_discount_total: 0,
        line_tax_total: 0,
        line_total: unit_price * quantity as i64,
        attributes_snapshot: "{}".to_string(),
        attributes_hash: "".to_string(),
        dt_created: 1000,
        dt_updated: 1000,
        dt_deleted: None,
    }
}

fn mk_product(id: u128, tenant_id: u128, price: i64, stock: i32) -> Product {
    Product {
        id: Id(id),
        tenant_id: Id(tenant_id),
        name: "Gadget".to_string(),
        slug: "gadget".to_string(),
        short_description: None,
        description: None,
        price,
        stock_quantity: stock,
        attributes: None,
        is_active: true,
        dt_created: 500,
        dt_updated: 500,
        dt_deleted: None,
    }
}

#[test]
fn new_cart_has_the_creation_defaults() {
    let cart = Cart::new_active(Id(9), Id(7), Id(3), 4200);
    assert!(matches!(cart.status, CartStatus::ACTIVE));
    assert_eq!(cart.currency, "BRL");
    assert_eq!(cart.subtotal, 0);
    assert_eq!(cart.discount_total, 0);
    assert_eq!(cart.tax_total, 0);
    assert_eq!(cart.shipping_total, 0);
    assert_eq!(cart.grand_total, 0);
    assert_eq!(cart.version, 0);
    assert_eq!(cart.dt_created, 4200);
    assert_eq!(cart.dt_deleted, None);
}

#[test]
fn with_totals_keeps_grand_total() {
    let cart = Cart::new_active(Id(9), Id(7), Id(3), 4200);
    let updated = cart.with_totals(3500, 10, 20, 30, 5000);
    assert_eq!(updated.subtotal, 3500);
    assert_eq!(updated.discount_total, 10);
    assert_eq!(updated.tax_total, 20);
    assert_eq!(updated.shipping_total, 30);
    assert_eq!(updated.grand_total, 0);
    assert_eq!(updated.dt_updated, 5000);
    assert_eq!(updated.dt_created, 4200);
}

#[test]
fn subtotal_sums_price_times_quantity() {
    let items = vec![mk_item(1, 10, 250, 2), mk_item(2, 11, 1000, 3)];
    assert_eq!(CartService::recompute_subtotal_cents(&items), Some(3500));

    let empty: Vec<CartItem> = vec![];
    assert_eq!(CartService::recompute_subtotal_cents(&empty), Some(0));
}

#[test]
fn subtotal_reports_overflow() {
    let items = vec![mk_item(1, 10, i64::MAX, 2)];
    assert_eq!(CartService::recompute_subtotal_cents(&items), None);
}

#[test]
fn add_product_requires_known_product() {
    let items = vec![];
    let request = AddProductCart {
        product_id: Id(10),
        quantity: 1,
    };
    let r = CartService::resolve_add_product(&None, Id(99), &request, &items);
    match r {
        Err(AppError::NotFound(msg)) => {
            assert_eq!(msg, Some("Produto não encontrado".to_string()))
        }
        _ => panic!("esperava NotFound"),
    }
}

#[test]
fn add_product_checks_stock() {
    let items = vec![];
    let product = Some(mk_product(10, 1, 9999, 5));
    let request = AddProductCart {
        product_id: Id(10),
        quantity: 10,
    };
    let r = CartService::resolve_add_product(&product, Id(99), &request, &items);
    match r {
        Err(AppError::BadRequest(msg)) => {
            assert_eq!(msg, Some("Estoque insuficiente".to_string()))
        }
        _ => panic!("esperava BadRequest"),
    }
}

#[test]
fn add_product_rejects_own_tenant() {
    let items = vec![];
    let product = Some(mk_product(10, 99, 9999, 50));
    let request = AddProductCart {
        product_id: Id(10),
        quantity: 10,
    };
    let r = CartService::resolve_add_product(&product, Id(99), &request, &items);
    match r {
        Err(AppError::BadRequest(msg)) => {
            assert_eq!(msg, Some("Produto pertence a sua conta".to_string()))
        }
        _ => panic!("esperava BadRequest"),
    }
}

#[test]
fn add_product_creates_new_line() {
    let items = vec![mk_item(1, 11, 250, 2)];
    let product = Some(mk_product(10, 1, 9999, 50));
    let request = AddProductCart {
        product_id: Id(10),
        quantity: 3,
    };
    let r = CartService::resolve_add_product(&product, Id(99), &request, &items);
    match r {
        Ok(CartItemAction::CreateItem {
            product_id,
            unit_price,
            quantity,
        }) => {
            assert_eq!(product_id, Id(10));
            assert_eq!(unit_price, 9999);
            assert_eq!(quantity, 3);
        }
        _ => panic!("esperava CreateItem"),
    }
}

#[test]
fn add_product_raises_existing_line() {
    let items = vec![mk_item(7, 10, 250, 3)];
    let product = Some(mk_product(10, 1, 300, 5));
    let request = AddProductCart {
        product_id: Id(10),
        quantity: 2,
    };
    let r = CartService::resolve_add_product(&product, Id(99), &request, &items);
    match r {
        Ok(CartItemAction::UpdateQuantity {
            item_id,
            new_quantity,
            unit_price,
        }) => {
            assert_eq!(item_id, Id(7));
            assert_eq!(new_quantity, 5);
            assert_eq!(unit_price, 300);
        }
        _ => panic!("esperava UpdateQuantity"),
    }
}

#[test]
fn add_product_rechecks_stock_for_new_total() {
    let items = vec![mk_item(7, 10, 250, 3)];
    let product = Some(mk_product(10, 1, 300, 4));
    let request = AddProductCart {
        product_id: Id(10),
        quantity: 2,
    };
    let r = CartService::resolve_add_product(&product, Id(99), &request, &items);
    match r {
        Err(AppError::BadRequest(msg)) => assert_eq!(
            msg,
            Some("Estoque insuficiente para a quantidade solicitada".to_string())
        ),
        _ => panic!("esperava BadRequest"),
    }
}

#[test]
fn delete_product_picks_first_line() {
    let items = vec![mk_item(7, 10, 250, 3), mk_item(8, 10, 250, 1)];
    let request = DeleteProductCart { product_id: Id(10) };
    assert_eq!(
        CartService::resolve_delete_product(&request, &items).ok(),
        Some(Id(7))
    );

    let missing = DeleteProductCart { product_id: Id(99) };
    match CartService::resolve_delete_product(&missing, &items) {
        Err(AppError::NotFound(msg)) => assert_eq!(
            msg,
            Some("Produto não encontrado no carrinho".to_string())
        ),
        _ => panic!("esperava NotFound"),
    }
}

#[test]
fn delete_cart_outcome_maps_missing_cart() {
    assert!(CartService::delete_cart_outcome(true).is_ok());
    match CartService::delete_cart_outcome(false) {
        Err(AppError::NotFound(msg)) => {
            assert_eq!(msg, Some("Carrinho não encontrado".to_string()))
        }
        _ => panic!("esperava NotFound"),
    }
}

#[test]
fn find_helpers_pick_first_match() {
    let items = vec![mk_item(1, 10, 100, 1), mk_item(2, 11, 100, 1)];
    assert_eq!(find_cart_item(&items, Id(11)), Some(1));
    assert_eq!(find_cart_item(&items, Id(12)), None);

    let products = vec![mk_product(10, 1, 100, 1), mk_product(11, 1, 200, 1)];
    let found = find_product_for(&products, Id(11)).expect("deveria achar o produto");
    assert_eq!(found.price, 200);
    assert!(find_product_for(&products, Id(12)).is_none());
}

#[test]
fn cart_with_items_joins_products_and_counts() {
    let cart = Cart::new_active(Id(1), Id(7), Id(3), 4200);
    let items = vec![mk_item(1, 10, 250, 2), mk_item(2, 99, 100, 4)];
    let products = vec![mk_product(10, 1, 250, 50)];
    let combined = CartWithItems::from_cart_and_items_with_products(cart, items, products);

    // the item without a product is left out of the join, but still counts
    assert_eq!(combined.items.len(), 1);
    assert_eq!(combined.item_count, 6);
    assert_eq!(combined.unique_products, 2);
    assert_eq!(combined.items[0].product_name, "Gadget");
    assert_eq!(combined.items[0].product_price, 250);
    assert_eq!(combined.items[0].quantity, 2);
    assert_eq!(combined.currency, "BRL");

    assert!(!combined.is_empty());
    assert_eq!(combined.total_items(), 2);
    let ids = combined.unique_product_ids();
    assert_eq!(ids, vec![Id(10)]);
    assert!(combined.get_item(Id(1)).is_some());
    assert!(combined.get_item(Id(2)).is_none());
}

#[test]
fn cart_with_items_without_products_is_empty() {
    let cart = Cart::new_active(Id(1), Id(7), Id(3), 4200);
    let items = vec![mk_item(1, 10, 250, 2)];
    let combined = CartWithItems::from_cart_and_items(cart, items);
    assert!(combined.is_empty());
    assert_eq!(combined.item_count, 2);
    assert_eq!(combined.unique_products, 1);
}

#[test]
fn negative_quantities_do_not_count() {
    let cart = Cart::new_active(Id(1), Id(7), Id(3), 4200);
    let items = vec![mk_item(1, 10, 250, -5), mk_item(2, 11, 100, 3)];
    let combined = CartWithItems::from_cart_and_items(cart, items);
    assert_eq!(combined.item_count, 3);
}
