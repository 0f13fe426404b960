//! The shopping cart.
//!
//! One active cart exists per tenant. Its items snapshot a product's
//! price in integer cents; the cart's totals are recomputed from the
//! items after every change. The rules verified here are the heart of the
//! library: the stock check and upsert-versus-create decision when a
//! product is added, the selection of the item to drop when one is
//! removed, the subtotal recomputation, and the assembly of a cart with
//! its items joined to their products.

use vstd::prelude::*;
use crate::ids::Id;
use crate::app_error::AppError;
use crate::product::{Product, clone_opt_string};

verus! {

#[derive(Debug, Clone, Copy, PartialEq, Eq, Structural)]
#[allow(non_camel_case_types)]
pub enum CartStatus {
    ACTIVE,
    CHECKOUT_IN_PROGRESS,
    CONVERTED_TO_ORDER,
    ABANDONED,
    CANCELLED,
}

#[derive(Debug, Clone)]
pub struct Cart {
    pub id: Id,
    pub tenant_id: Id,
    pub user_id: Id,
    pub status: CartStatus,
    pub currency: String,
    /// Monetary totals in integer cents.
    pub subtotal: i64,
    pub discount_total: i64,
    pub tax_total: i64,
    pub shipping_total: i64,
    pub grand_total: i64,
    pub version: i32,
    pub expires_at: Option<i64>,
    pub dt_created: i64,
    pub dt_updated: i64,
    pub dt_deleted: Option<i64>,
}

#[derive(Debug, Clone)]
pub struct AddProductCart {
    pub product_id: Id,
    pub quantity: i32,
}

#[derive(Debug, Clone)]
pub struct DeleteProductCart {
    pub product_id: Id,
}

#[derive(Debug, Clone)]
pub struct CartItem {
    pub id: Id,
    pub cart_id: Id,
    pub product_id: Id,
    pub variant_id: Option<Id>,
    /// Unit price in integer cents.
    pub unit_price: i64,
    pub quantity: i32,
    pub line_discount_total: i64,
    pub line_tax_total: i64,
    pub line_total: i64,
    /// Attribute snapshot carried opaquely as JSON text.
    pub attributes_snapshot: String,
    pub attributes_hash: String,
    pub dt_created: i64,
    pub dt_updated: i64,
    pub dt_deleted: Option<i64>,
}

#[derive(Debug, Clone)]
pub struct CartItemResponse {
    pub id: Id,
    pub product_id: Id,
    pub variant_id: Option<Id>,
    pub unit_price: i64,
    pub quantity: i32,
    pub line_total: i64,
    pub attributes_snapshot: String,
    pub dt_created: i64,
}

/// A cart item joined with the product it snapshots.
#[derive(Debug, Clone)]
pub struct CartItemWithProduct {
    pub id: Id,
    pub cart_id: Id,
    pub product_id: Id,
    pub variant_id: Option<Id>,
    pub unit_price: i64,
    pub quantity: i32,
    pub line_discount_total: i64,
    pub line_tax_total: i64,
    pub line_total: i64,
    pub attributes_snapshot: String,
    pub attributes_hash: String,
    pub dt_created: i64,
    pub dt_updated: i64,
    pub dt_deleted: Option<i64>,
    pub product_name: String,
    pub product_slug: String,
    pub product_short_description: Option<String>,
    pub product_description: Option<String>,
    /// Product price in integer cents.
    pub product_price: i64,
    pub product_stock_quantity: i32,
    pub product_is_active: bool,
}

#[derive(Debug, Clone)]
pub struct CartWithItems {
    pub id: Id,
    pub tenant_id: Id,
    pub user_id: Id,
    pub status: CartStatus,
    pub currency: String,
    pub subtotal: i64,
    pub discount_total: i64,
    pub tax_total: i64,
    pub shipping_total: i64,
    pub grand_total: i64,
    pub version: i32,
    pub expires_at: Option<i64>,
    pub dt_created: i64,
    pub dt_updated: i64,
    pub dt_deleted: Option<i64>,
    pub items: Vec<CartItemWithProduct>,
    /// Total quantity over all items.
    pub item_count: usize,
    /// Number of distinct line items.
    pub unique_products: usize,
}

#[derive(Debug, Clone)]
pub struct CartSummary {
    pub id: Id,
    pub tenant_id: Id,
    pub status: CartStatus,
    pub currency: String,
    pub subtotal: i64,
    pub grand_total: i64,
    pub item_count: usize,
    pub dt_updated: i64,
}

/// The signed amount a line contributes to the subtotal, in cents.
pub open spec fn line_amount(item: CartItem) -> int {
    item.unit_price * item.quantity
}

/// The subtotal of a list of items, in cents.
pub open spec fn subtotal_of(items: Seq<CartItem>) -> int
    decreases items.len(),
{
    if items.len() == 0 {
        0
    } else {
        subtotal_of(items.drop_last()) + line_amount(items.last())
    }
}

/// A quantity as it counts toward the cart's item count: negative
/// quantities count as zero.
pub open spec fn counted_quantity(q: int) -> int {
    if q < 0 {
        0
    } else {
        q
    }
}

/// The total quantity over a list of items.
pub open spec fn item_count_of(items: Seq<CartItem>) -> int
    decreases items.len(),
{
    if items.len() == 0 {
        0
    } else {
        item_count_of(items.drop_last()) + counted_quantity(items.last().quantity as int)
    }
}

/// An upper bound on the magnitude of one line amount: 2^94.
pub open spec fn line_amount_bound() -> int {
    0x4000000000000000000000000
}

proof fn lemma_line_amount_bound(item: CartItem)
    ensures
        -line_amount_bound() <= line_amount(item) <= line_amount_bound(),
{
    assert(-line_amount_bound() <= item.unit_price * item.quantity <= line_amount_bound())
        by (nonlinear_arith)
        requires
            i64::MIN <= item.unit_price <= i64::MAX,
            i32::MIN <= item.quantity <= i32::MAX,
    ;
}

proof fn lemma_subtotal_push(items: Seq<CartItem>, item: CartItem)
    ensures
        subtotal_of(items.push(item)) == subtotal_of(items) + line_amount(item),
        item_count_of(items.push(item)) == item_count_of(items) + counted_quantity(
            item.quantity as int,
        ),
{
    assert(items.push(item).drop_last() =~= items);
}

/// There is no item for this product in the cart.
pub open spec fn no_item_for(items: Seq<CartItem>, product_id: Id) -> bool {
    forall|j: int| 0 <= j < items.len() ==> items[j].product_id != product_id
}

/// Index `i` holds the first item for this product.
pub open spec fn is_first_item_for(items: Seq<CartItem>, product_id: Id, i: int) -> bool {
    &&& 0 <= i < items.len()
    &&& items[i].product_id == product_id
    &&& forall|j: int| 0 <= j < i ==> items[j].product_id != product_id
}

/// Finds the first item of the cart holding the given product.
pub fn find_cart_item(items: &Vec<CartItem>, product_id: Id) -> (r: Option<usize>)
    ensures
        match r {
            Some(i) => is_first_item_for(items@, product_id, i as int),
            None => no_item_for(items@, product_id),
        },
{
    let n: usize = items.len();
    let mut i: usize = 0;
    while i < n
        invariant
            i <= n,
            n == items@.len(),
            forall|j: int| 0 <= j < i ==> items@[j].product_id != product_id,
        decreases n - i,
    {
        if items[i].product_id == product_id {
            return Some(i);
        }
        i = i + 1;
    }
    None
}

/// What the cart changes when a product is added: raise the quantity of
/// the line that already holds it, or create a new line.
#[derive(Debug, Clone)]
pub enum CartItemAction {
    UpdateQuantity { item_id: Id, new_quantity: i64, unit_price: i64 },
    CreateItem { product_id: Id, unit_price: i64, quantity: i32 },
}

pub struct CartService;

impl CartService {
    /// Recomputes a cart's subtotal from its items: the sum over every
    /// line of unit price times quantity, in cents. `None` reports a sum
    /// that does not fit a 64-bit amount.
    pub fn recompute_subtotal_cents(items: &Vec<CartItem>) -> (r: Option<i64>)
        requires
            items@.len() <= 0x10000000,
        ensures
            r matches Some(s) ==> s == subtotal_of(items@),
            r is Some <==> i64::MIN <= subtotal_of(items@) <= i64::MAX,
    {
        let n: usize = items.len();
        let mut acc: i128 = 0;
        let mut i: usize = 0;
        proof {
            assert(items@.take(0int) =~= Seq::<CartItem>::empty());
        }
        while i < n
            invariant
                i <= n,
                n == items@.len(),
                n <= 0x10000000,
                acc == subtotal_of(items@.take(i as int)),
                -(i as int) * line_amount_bound() <= acc <= (i as int) * line_amount_bound(),
            decreases n - i,
        {
            let item = &items[i];
            proof {
                assert(items@.take(i as int + 1) =~= items@.take(i as int).push(items@[i as int]));
                lemma_subtotal_push(items@.take(i as int), items@[i as int]);
                lemma_line_amount_bound(items@[i as int]);
                assert((i as int) * line_amount_bound() + line_amount_bound() == (i as int + 1)
                    * line_amount_bound()) by (nonlinear_arith);
                assert((i as int + 1) * line_amount_bound() <= 0x10000001 * line_amount_bound())
                    by (nonlinear_arith)
                    requires
                        i as int + 1 <= 0x10000001,
                ;
            }
            let line: i128 = (item.unit_price as i128) * (item.quantity as i128);
            proof {
                assert(line == line_amount(items@[i as int])) by (nonlinear_arith)
                    requires
                        line == (items@[i as int].unit_price as i128) * (items@[i as
                            int].quantity as i128),
                ;
            }
            acc = acc + line;
            i = i + 1;
        }
        proof {
            assert(items@.take(n as int) =~= items@);
        }
        if acc >= i64::MIN as i128 && acc <= i64::MAX as i128 {
            Some(acc as i64)
        } else {
            None
        }
    }

    /// Decides what adding a product to the cart does: a missing product
    /// is reported as not found; a
    /// request above the stock, or for the tenant's own product, is
    /// rejected; a product already in the cart has its first line's
    /// quantity raised, after a second stock check against the new total;
    /// anything else becomes a new line at the product's current price.
    pub fn resolve_add_product(
        product: &Option<Product>,
        tenant_id: Id,
        request: &AddProductCart,
        items: &Vec<CartItem>,
    ) -> (r: Result<CartItemAction, AppError>)
        ensures
            match *product {
                None => (r matches Err(e) && e matches AppError::NotFound(_) && e.message()
                    matches Some(m) && m@ == "Produto não encontrado"@),
                Some(p) => if p.stock_quantity < request.quantity {
                    (r matches Err(e) && e matches AppError::BadRequest(_) && e.message()
                        matches Some(m) && m@ == "Estoque insuficiente"@)
                } else if p.tenant_id == tenant_id {
                    (r matches Err(e) && e matches AppError::BadRequest(_) && e.message()
                        matches Some(m) && m@ == "Produto pertence a sua conta"@)
                } else if no_item_for(items@, request.product_id) {
                    (r matches Ok(a) && a matches CartItemAction::CreateItem {
                        product_id,
                        unit_price,
                        quantity,
                    } && product_id == request.product_id && unit_price == p.price && quantity
                        == request.quantity)
                } else {
                    true
                },
            },
            forall|i: int|
                is_first_item_for(items@, request.product_id, i) ==> match *product {
                    Some(p) => if p.stock_quantity >= request.quantity && p.tenant_id
                        != tenant_id {
                        let new_q = items@[i].quantity + request.quantity;
                        if p.stock_quantity < new_q {
                            (r matches Err(e) && e matches AppError::BadRequest(_) && e.message()
                                matches Some(m) && m@
                                == "Estoque insuficiente para a quantidade solicitada"@)
                        } else {
                            (r matches Ok(a) && a matches CartItemAction::UpdateQuantity {
                                item_id,
                                new_quantity,
                                unit_price,
                            } && item_id == items@[i].id && new_quantity == new_q && unit_price
                                == p.price)
                        }
                    } else {
                        true
                    },
                    None => true,
                },
    {
        let p = match product {
            Some(p) => p,
            None => {
                return Err(AppError::not_found("Produto não encontrado"));
            },
        };
        if p.stock_quantity < request.quantity {
            return Err(AppError::bad_request("Estoque insuficiente"));
        }
        if p.tenant_id == tenant_id {
            return Err(AppError::bad_request("Produto pertence a sua conta"));
        }
        match find_cart_item(items, request.product_id) {
            Some(i) => {
                let new_quantity: i64 = items[i].quantity as i64 + request.quantity as i64;
                if (p.stock_quantity as i64) < new_quantity {
                    Err(AppError::bad_request("Estoque insuficiente para a quantidade solicitada"))
                } else {
                    Ok(
                        CartItemAction::UpdateQuantity {
                            item_id: items[i].id,
                            new_quantity,
                            unit_price: p.price,
                        },
                    )
                }
            },
            None => Ok(
                CartItemAction::CreateItem {
                    product_id: request.product_id,
                    unit_price: p.price,
                    quantity: request.quantity,
                },
            ),
        }
    }

    /// Decides what removing a product from the cart does: the first line
    /// holding the product is dropped; a product not in the cart is
    /// reported as not found.
    pub fn resolve_delete_product(request: &DeleteProductCart, items: &Vec<CartItem>) -> (r: Result<
        Id,
        AppError,
    >)
        ensures
            no_item_for(items@, request.product_id) ==> (r matches Err(e) && e matches
                AppError::NotFound(_) && e.message() matches Some(m) && m@
                == "Produto não encontrado no carrinho"@),
            forall|i: int|
                is_first_item_for(items@, request.product_id, i) ==> (r matches Ok(id) && id
                    == items@[i].id),
    {
        match find_cart_item(items, request.product_id) {
            Some(i) => Ok(items[i].id),
            None => Err(AppError::not_found("Produto não encontrado no carrinho")),
        }
    }

    /// Turns the repository's answer to a cart deletion into the service's
    /// result: a cart that was not there is reported as not found.
    pub fn delete_cart_outcome(deleted: bool) -> (r: Result<bool, AppError>)
        ensures
            deleted ==> (r matches Ok(d) && d == true),
            !deleted ==> (r matches Err(e) && e matches AppError::NotFound(_) && e.message()
                matches Some(m) && m@ == "Carrinho não encontrado"@),
    {
        if deleted {
            Ok(true)
        } else {
            Err(AppError::not_found("Carrinho não encontrado"))
        }
    }
}

impl Cart {
    /// A field-for-field copy.
    pub fn clone_record(&self) -> (r: Cart)
        ensures
            r == *self,
    {
        Cart {
            id: self.id,
            tenant_id: self.tenant_id,
            user_id: self.user_id,
            status: self.status,
            currency: self.currency.clone(),
            subtotal: self.subtotal,
            discount_total: self.discount_total,
            tax_total: self.tax_total,
            shipping_total: self.shipping_total,
            grand_total: self.grand_total,
            version: self.version,
            expires_at: self.expires_at,
            dt_created: self.dt_created,
            dt_updated: self.dt_updated,
            dt_deleted: self.dt_deleted,
        }
    }

    /// The cart a creation inserts: active, in BRL, every total zero,
    /// version zero, both timestamps at `now`.
    pub fn new_active(id: Id, tenant_id: Id, user_id: Id, now: i64) -> (r: Cart)
        ensures
            r.id == id,
            r.tenant_id == tenant_id,
            r.user_id == user_id,
            r.status == CartStatus::ACTIVE,
            r.currency@ == "BRL"@,
            r.subtotal == 0,
            r.discount_total == 0,
            r.tax_total == 0,
            r.shipping_total == 0,
            r.grand_total == 0,
            r.version == 0,
            r.expires_at is None,
            r.dt_created == now,
            r.dt_updated == now,
            r.dt_deleted is None,
    {
        Cart {
            id,
            tenant_id,
            user_id,
            status: CartStatus::ACTIVE,
            currency: "BRL".to_owned(),
            subtotal: 0,
            discount_total: 0,
            tax_total: 0,
            shipping_total: 0,
            grand_total: 0,
            version: 0,
            expires_at: None,
            dt_created: now,
            dt_updated: now,
            dt_deleted: None,
        }
    }

    /// The cart after its totals are rewritten: the new subtotal and the
    /// given discount, tax and shipping totals, `dt_updated` at `now`; the
    /// grand total is left untouched.
    pub fn with_totals(
        self,
        subtotal: i64,
        discount_total: i64,
        tax_total: i64,
        shipping_total: i64,
        now: i64,
    ) -> (r: Cart)
        ensures
            r.id == self.id,
            r.tenant_id == self.tenant_id,
            r.user_id == self.user_id,
            r.status == self.status,
            r.currency == self.currency,
            r.subtotal == subtotal,
            r.discount_total == discount_total,
            r.tax_total == tax_total,
            r.shipping_total == shipping_total,
            r.grand_total == self.grand_total,
            r.version == self.version,
            r.expires_at == self.expires_at,
            r.dt_created == self.dt_created,
            r.dt_updated == now,
            r.dt_deleted == self.dt_deleted,
    {
        Cart {
            subtotal,
            discount_total,
            tax_total,
            shipping_total,
            dt_updated: now,
            ..self
        }
    }
}

/// The first product of the list carrying this identifier, if any.
pub open spec fn first_product_for(products: Seq<Product>, product_id: Id) -> Option<Product>
    decreases products.len(),
{
    if products.len() == 0 {
        None
    } else if products[0].id == product_id {
        Some(products[0])
    } else {
        first_product_for(products.drop_first(), product_id)
    }
}

proof fn lemma_first_product_found(products: Seq<Product>, product_id: Id, i: int)
    requires
        0 <= i < products.len(),
        products[i].id == product_id,
        forall|j: int| 0 <= j < i ==> products[j].id != product_id,
    ensures
        first_product_for(products, product_id) == Some(products[i]),
    decreases i,
{
    if i == 0 {
    } else {
        let rest = products.drop_first();
        assert forall|j: int| 0 <= j < i - 1 implies rest[j].id != product_id by {
            assert(rest[j] == products[j + 1]);
        }
        assert(rest[i - 1] == products[i]);
        lemma_first_product_found(rest, product_id, i - 1);
    }
}

proof fn lemma_first_product_none(products: Seq<Product>, product_id: Id)
    requires
        forall|j: int| 0 <= j < products.len() ==> products[j].id != product_id,
    ensures
        first_product_for(products, product_id) is None,
    decreases products.len(),
{
    if products.len() == 0 {
    } else {
        let rest = products.drop_first();
        assert forall|j: int| 0 <= j < rest.len() implies rest[j].id != product_id by {
            assert(rest[j] == products[j + 1]);
        }
        lemma_first_product_none(rest, product_id);
    }
}

/// Finds the first product of the list carrying this identifier.
pub fn find_product_for(products: &Vec<Product>, product_id: Id) -> (r: Option<Product>)
    ensures
        r == first_product_for(products@, product_id),
{
    let n: usize = products.len();
    let mut i: usize = 0;
    while i < n
        invariant
            i <= n,
            n == products@.len(),
            forall|j: int| 0 <= j < i ==> products@[j].id != product_id,
        decreases n - i,
    {
        if products[i].id == product_id {
            proof {
                lemma_first_product_found(products@, product_id, i as int);
            }
            return Some(products[i].clone_record());
        }
        i = i + 1;
    }
    proof {
        lemma_first_product_none(products@, product_id);
    }
    None
}

/// A cart item joined with its product's current data.
pub open spec fn joined_item(item: CartItem, product: Product) -> CartItemWithProduct {
    CartItemWithProduct {
        id: item.id,
        cart_id: item.cart_id,
        product_id: item.product_id,
        variant_id: item.variant_id,
        unit_price: item.unit_price,
        quantity: item.quantity,
        line_discount_total: item.line_discount_total,
        line_tax_total: item.line_tax_total,
        line_total: item.line_total,
        attributes_snapshot: item.attributes_snapshot,
        attributes_hash: item.attributes_hash,
        dt_created: item.dt_created,
        dt_updated: item.dt_updated,
        dt_deleted: item.dt_deleted,
        product_name: product.name,
        product_slug: product.slug,
        product_short_description: product.short_description,
        product_description: product.description,
        product_price: product.price,
        product_stock_quantity: product.stock_quantity,
        product_is_active: product.is_active,
    }
}

/// The items joined with their products, in order; an item whose product
/// is not in the list is left out of the join.
pub open spec fn joined_items(items: Seq<CartItem>, products: Seq<Product>) -> Seq<
    CartItemWithProduct,
>
    decreases items.len(),
{
    if items.len() == 0 {
        Seq::empty()
    } else {
        let rest = joined_items(items.drop_last(), products);
        match first_product_for(products, items.last().product_id) {
            Some(p) => rest.push(joined_item(items.last(), p)),
            None => rest,
        }
    }
}

proof fn lemma_joined_push(items: Seq<CartItem>, item: CartItem, products: Seq<Product>)
    ensures
        joined_items(items.push(item), products) == match first_product_for(
            products,
            item.product_id,
        ) {
            Some(p) => joined_items(items, products).push(joined_item(item, p)),
            None => joined_items(items, products),
        },
{
    assert(items.push(item).drop_last() =~= items);
}

fn make_joined(item: &CartItem, product: &Product) -> (r: CartItemWithProduct)
    ensures
        r == joined_item(*item, *product),
{
    CartItemWithProduct {
        id: item.id,
        cart_id: item.cart_id,
        product_id: item.product_id,
        variant_id: item.variant_id,
        unit_price: item.unit_price,
        quantity: item.quantity,
        line_discount_total: item.line_discount_total,
        line_tax_total: item.line_tax_total,
        line_total: item.line_total,
        attributes_snapshot: item.attributes_snapshot.clone(),
        attributes_hash: item.attributes_hash.clone(),
        dt_created: item.dt_created,
        dt_updated: item.dt_updated,
        dt_deleted: item.dt_deleted,
        product_name: product.name.clone(),
        product_slug: product.slug.clone(),
        product_short_description: clone_opt_string(&product.short_description),
        product_description: clone_opt_string(&product.description),
        product_price: product.price,
        product_stock_quantity: product.stock_quantity,
        product_is_active: product.is_active,
    }
}

/// An integer cut to what a `usize` can hold.
pub open spec fn clamped_to_usize(n: int) -> int {
    if n <= usize::MAX {
        n
    } else {
        usize::MAX as int
    }
}

fn count_items(items: &Vec<CartItem>) -> (r: usize)
    requires
        items@.len() <= 0x10000000,
    ensures
        r == clamped_to_usize(item_count_of(items@)),
{
    let n: usize = items.len();
    let mut acc: u64 = 0;
    let mut i: usize = 0;
    proof {
        assert(items@.take(0int) =~= Seq::<CartItem>::empty());
    }
    while i < n
        invariant
            i <= n,
            n == items@.len(),
            n <= 0x10000000,
            acc == item_count_of(items@.take(i as int)),
            acc <= (i as int) * 0x80000000,
        decreases n - i,
    {
        proof {
            assert(items@.take(i as int + 1) =~= items@.take(i as int).push(items@[i as int]));
            lemma_subtotal_push(items@.take(i as int), items@[i as int]);
        }
        let q: i32 = items[i].quantity;
        if q > 0 {
            acc = acc + (q as u64);
        }
        i = i + 1;
    }
    proof {
        assert(items@.take(n as int) =~= items@);
    }
    if acc <= usize::MAX as u64 {
        acc as usize
    } else {
        usize::MAX
    }
}

impl CartWithItems {
    /// Builds the combined view from a cart and its raw items, the item
    /// list left to be filled in: the item count sums the quantities, the
    /// unique-product count is the number of lines.
    pub fn from_cart_and_items(cart: Cart, items: Vec<CartItem>) -> (r: CartWithItems)
        requires
            items@.len() <= 0x10000000,
        ensures
            r.id == cart.id,
            r.tenant_id == cart.tenant_id,
            r.user_id == cart.user_id,
            r.status == cart.status,
            r.currency == cart.currency,
            r.subtotal == cart.subtotal,
            r.discount_total == cart.discount_total,
            r.tax_total == cart.tax_total,
            r.shipping_total == cart.shipping_total,
            r.grand_total == cart.grand_total,
            r.version == cart.version,
            r.expires_at == cart.expires_at,
            r.dt_created == cart.dt_created,
            r.dt_updated == cart.dt_updated,
            r.dt_deleted == cart.dt_deleted,
            r.items@.len() == 0,
            r.item_count == clamped_to_usize(item_count_of(items@)),
            r.unique_products == items@.len(),
    {
        let item_count = count_items(&items);
        let unique_products = items.len();
        CartWithItems {
            id: cart.id,
            tenant_id: cart.tenant_id,
            user_id: cart.user_id,
            status: cart.status,
            currency: cart.currency,
            subtotal: cart.subtotal,
            discount_total: cart.discount_total,
            tax_total: cart.tax_total,
            shipping_total: cart.shipping_total,
            grand_total: cart.grand_total,
            version: cart.version,
            expires_at: cart.expires_at,
            dt_created: cart.dt_created,
            dt_updated: cart.dt_updated,
            dt_deleted: cart.dt_deleted,
            items: Vec::new(),
            item_count,
            unique_products,
        }
    }

    /// Builds the combined view with the items joined to their products:
    /// an item whose product is missing from the list is left out of the
    /// joined items, but still counts toward the item and unique-product
    /// counts.
    pub fn from_cart_and_items_with_products(
        cart: Cart,
        items: Vec<CartItem>,
        products: Vec<Product>,
    ) -> (r: CartWithItems)
        requires
            items@.len() <= 0x10000000,
        ensures
            r.id == cart.id,
            r.tenant_id == cart.tenant_id,
            r.user_id == cart.user_id,
            r.status == cart.status,
            r.currency == cart.currency,
            r.subtotal == cart.subtotal,
            r.discount_total == cart.discount_total,
            r.tax_total == cart.tax_total,
            r.shipping_total == cart.shipping_total,
            r.grand_total == cart.grand_total,
            r.version == cart.version,
            r.expires_at == cart.expires_at,
            r.dt_created == cart.dt_created,
            r.dt_updated == cart.dt_updated,
            r.dt_deleted == cart.dt_deleted,
            r.items@ == joined_items(items@, products@),
            r.item_count == clamped_to_usize(item_count_of(items@)),
            r.unique_products == items@.len(),
    {
        let item_count = count_items(&items);
        let unique_products = items.len();
        let mut joined: Vec<CartItemWithProduct> = Vec::new();
        let n: usize = items.len();
        let mut i: usize = 0;
        proof {
            assert(items@.take(0int) =~= Seq::<CartItem>::empty());
        }
        while i < n
            invariant
                i <= n,
                n == items@.len(),
                joined@ =~= joined_items(items@.take(i as int), products@),
            decreases n - i,
        {
            proof {
                assert(items@.take(i as int + 1) =~= items@.take(i as int).push(items@[i as int]));
                lemma_joined_push(items@.take(i as int), items@[i as int], products@);
            }
            match find_product_for(&products, items[i].product_id) {
                Some(p) => {
                    joined.push(make_joined(&items[i], &p));
                },
                None => {},
            }
            i = i + 1;
        }
        proof {
            assert(items@.take(n as int) =~= items@);
        }
        CartWithItems {
            id: cart.id,
            tenant_id: cart.tenant_id,
            user_id: cart.user_id,
            status: cart.status,
            currency: cart.currency,
            subtotal: cart.subtotal,
            discount_total: cart.discount_total,
            tax_total: cart.tax_total,
            shipping_total: cart.shipping_total,
            grand_total: cart.grand_total,
            version: cart.version,
            expires_at: cart.expires_at,
            dt_created: cart.dt_created,
            dt_updated: cart.dt_updated,
            dt_deleted: cart.dt_deleted,
            items: joined,
            item_count,
            unique_products,
        }
    }

    /// Whether the cart holds no joined items.
    pub fn is_empty(&self) -> (r: bool)
        ensures
            r == (self.items@.len() == 0),
    {
        self.items.len() == 0
    }

    /// The joined item with this identifier, if any; the first one wins.
    pub fn get_item(&self, item_id: Id) -> (r: Option<&CartItemWithProduct>)
        ensures
            match r {
                Some(it) => exists|i: int|
                    0 <= i < self.items@.len() && #[trigger] self.items@[i].id == item_id && *it
                        == self.items@[i],
                None => forall|i: int| 0 <= i < self.items@.len() ==> self.items@[i].id != item_id,
            },
    {
        let n: usize = self.items.len();
        let mut i: usize = 0;
        while i < n
            invariant
                i <= n,
                n == self.items@.len(),
                forall|j: int| 0 <= j < i ==> self.items@[j].id != item_id,
            decreases n - i,
        {
            if self.items[i].id == item_id {
                return Some(&self.items[i]);
            }
            i = i + 1;
        }
        None
    }

    /// The product identifier of every line, in order.
    pub fn unique_product_ids(&self) -> (r: Vec<Id>)
        ensures
            r@.len() == self.items@.len(),
            forall|i: int| 0 <= i < r@.len() ==> r@[i] == self.items@[i].product_id,
    {
        let n: usize = self.items.len();
        let mut out: Vec<Id> = Vec::new();
        let mut i: usize = 0;
        while i < n
            invariant
                i <= n,
                n == self.items@.len(),
                out@.len() == i,
                forall|j: int| 0 <= j < i ==> out@[j] == self.items@[j].product_id,
            decreases n - i,
        {
            out.push(self.items[i].product_id);
            i = i + 1;
        }
        out
    }

    /// The total quantity over the joined items.
    pub fn total_items(&self) -> (r: usize)
        requires
            self.items@.len() <= 0x10000000,
        ensures
            r == clamped_to_usize(joined_count_of(self.items@)),
    {
        let n: usize = self.items.len();
        let mut acc: u64 = 0;
        let mut i: usize = 0;
        proof {
            assert(self.items@.take(0int) =~= Seq::<CartItemWithProduct>::empty());
        }
        while i < n
            invariant
                i <= n,
                n == self.items@.len(),
                n <= 0x10000000,
                acc == joined_count_of(self.items@.take(i as int)),
                acc <= (i as int) * 0x80000000,
            decreases n - i,
        {
            proof {
                assert(self.items@.take(i as int + 1) =~= self.items@.take(i as int).push(
                    self.items@[i as int],
                ));
                assert(self.items@.take(i as int + 1).drop_last() =~= self.items@.take(i as int));
            }
            let q: i32 = self.items[i].quantity;
            if q > 0 {
                acc = acc + (q as u64);
            }
            i = i + 1;
        }
        proof {
            assert(self.items@.take(n as int) =~= self.items@);
        }
        if acc <= usize::MAX as u64 {
            acc as usize
        } else {
            usize::MAX
        }
    }
}

/// The total quantity over a list of joined items.
pub open spec fn joined_count_of(items: Seq<CartItemWithProduct>) -> int
    decreases items.len(),
{
    if items.len() == 0 {
        0
    } else {
        joined_count_of(items.drop_last()) + counted_quantity(items.last().quantity as int)
    }
}

/// A line amount cut to what a 64-bit cent count can hold.
pub open spec fn clamped_line_total(v: int) -> int {
    if v > i64::MAX {
        i64::MAX as int
    } else if v < i64::MIN {
        i64::MIN as int
    } else {
        v
    }
}

impl CartItem {
    /// The line a cart insertion creates: the snapshot of the product's
    /// price and the requested quantity, the line total their product,
    /// an empty attributes hash, both timestamps at `now`.
    pub fn new(
        id: Id,
        cart_id: Id,
        product_id: Id,
        variant_id: Option<Id>,
        unit_price: i64,
        quantity: i32,
        line_discount_total: i64,
        line_tax_total: i64,
        attributes_snapshot: String,
        now: i64,
    ) -> (r: CartItem)
        ensures
            r.id == id,
            r.cart_id == cart_id,
            r.product_id == product_id,
            r.variant_id == variant_id,
            r.unit_price == unit_price,
            r.quantity == quantity,
            r.line_discount_total == line_discount_total,
            r.line_tax_total == line_tax_total,
            r.line_total == clamped_line_total(unit_price * quantity),
            r.attributes_snapshot == attributes_snapshot,
            r.attributes_hash@ == Seq::<char>::empty(),
            r.dt_created == now,
            r.dt_updated == now,
            r.dt_deleted is None,
    {
        proof {
            assert(-line_amount_bound() <= unit_price * quantity <= line_amount_bound())
                by (nonlinear_arith)
                requires
                    i64::MIN <= unit_price <= i64::MAX,
                    i32::MIN <= quantity <= i32::MAX,
            ;
        }
        let wide: i128 = (unit_price as i128) * (quantity as i128);
        let line_total: i64 = if wide > i64::MAX as i128 {
            i64::MAX
        } else if wide < i64::MIN as i128 {
            i64::MIN
        } else {
            wide as i64
        };
        CartItem {
            id,
            cart_id,
            product_id,
            variant_id,
            unit_price,
            quantity,
            line_discount_total,
            line_tax_total,
            line_total,
            attributes_snapshot,
            attributes_hash: String::new(),
            dt_created: now,
            dt_updated: now,
            dt_deleted: None,
        }
    }

    /// A field-for-field copy.
    pub fn clone_record(&self) -> (r: CartItem)
        ensures
            r == *self,
    {
        CartItem {
            id: self.id,
            cart_id: self.cart_id,
            product_id: self.product_id,
            variant_id: self.variant_id,
            unit_price: self.unit_price,
            quantity: self.quantity,
            line_discount_total: self.line_discount_total,
            line_tax_total: self.line_tax_total,
            line_total: self.line_total,
            attributes_snapshot: self.attributes_snapshot.clone(),
            attributes_hash: self.attributes_hash.clone(),
            dt_created: self.dt_created,
            dt_updated: self.dt_updated,
            dt_deleted: self.dt_deleted,
        }
    }
}

} // verus!
