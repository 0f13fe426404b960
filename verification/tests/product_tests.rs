use rust_template::app_error::AppError;
use rust_template::ids::fresh_id;
use rust_template::product::{
    CreateProductRequest, Product, ProductListParams, UpdateProductRequest,
};

fn now() -> i64 {
    chrono::Utc::now().timestamp()
}

// ===== unit tests of the models =====

#[test]
fn test_product_model_creation() {
    let now = now();
    let product = Product {
        id: fresh_id(),
        tenant_id: fresh_id(),
        name: "Test Product".to_string(),
        slug: "test-product".to_string(),
        short_description: Some("A test product".to_string()),
        description: Some("This is a detailed description".to_string()),
        price: 9999,
        stock_quantity: 100,
        attributes: Some(r#"{"color": "red", "size": "M"}"#.to_string()),
        is_active: true,
        dt_created: now,
        dt_updated: now,
        dt_deleted: None,
    };

    assert_eq!(product.name, "Test Product");
    assert_eq!(product.slug, "test-product");
    assert_eq!(product.stock_quantity, 100);
    assert!(product.is_active);
    assert_eq!(product.price, 9999);
}

#[test]
fn test_create_product_request_validation() {
    let valid_request = CreateProductRequest {
        name: "Valid Product".to_string(),
        short_description: Some("Short desc".to_string()),
        description: Some("Long description".to_string()),
        price: 9999,
        stock_quantity: 50,
        attributes: Some(r#"{"brand": "TestBrand"}"#.to_string()),
        is_active: true,
    };

    assert_eq!(valid_request.name, "Valid Product");
    assert_eq!(valid_request.price, 9999);
    assert_eq!(valid_request.stock_quantity, 50);
    assert!(valid_request.is_active);
}

#[test]
fn test_update_product_request_optional_fields() {
    let update_request = UpdateProductRequest {
        name: Some("Updated Name".to_string()),
        short_description: None,
        description: Some("Updated description".to_string()),
        price: Some(14999),
        stock_quantity: None,
        attributes: Some(r#"{"new_attribute": "value"}"#.to_string()),
        is_active: Some(false),
    };

    assert_eq!(update_request.name, Some("Updated Name".to_string()));
    assert_eq!(update_request.short_description, None);
    assert_eq!(update_request.price, Some(14999));
    assert_eq!(update_request.is_active, Some(false));
}

#[test]
fn test_product_list_params_creation() {
    let params = ProductListParams {
        name: Some("test".to_string()),
        min_price: Some(1000),
        max_price: Some(10000),
        limit: Some(20),
        offset: Some(0),
        is_active: Some(true),
    };

    assert_eq!(params.name, Some("test".to_string()));
    assert_eq!(params.min_price, Some(1000));
    assert_eq!(params.max_price, Some(10000));
    assert_eq!(params.limit, Some(20));
    assert_eq!(params.offset, Some(0));
    assert_eq!(params.is_active, Some(true));
}

// ===== unit tests of the service-side rules =====

#[test]
fn test_product_service_validation() {
    let invalid_request = CreateProductRequest {
        name: "".to_string(),
        short_description: Some("A test product".to_string()),
        description: Some("This is a detailed description".to_string()),
        price: 9999,
        stock_quantity: 100,
        attributes: Some(r#"{"color": "red"}"#.to_string()),
        is_active: true,
    };

    assert!(invalid_request.name.is_empty());
    assert_eq!(invalid_request.name, "");
}

#[test]
fn test_product_service_price_validation() {
    let negative_price_request = CreateProductRequest {
        name: "Test Product".to_string(),
        short_description: Some("A test product".to_string()),
        description: Some("This is a detailed description".to_string()),
        price: -1000,
        stock_quantity: 100,
        attributes: None,
        is_active: true,
    };

    assert!(negative_price_request.price < 0, "Preço deve ser negativo");
}

#[test]
fn test_product_service_stock_validation() {
    let negative_stock_request = CreateProductRequest {
        name: "Test Product".to_string(),
        short_description: Some("A test product".to_string()),
        description: Some("This is a detailed description".to_string()),
        price: 9999,
        stock_quantity: -50,
        attributes: None,
        is_active: true,
    };

    assert!(
        negative_stock_request.stock_quantity < 0,
        "Estoque deve ser negativo"
    );
}

#[test]
fn test_product_service_valid_request() {
    let valid_request = CreateProductRequest {
        name: "Valid Product".to_string(),
        short_description: Some("A valid product".to_string()),
        description: Some("This is a valid description".to_string()),
        price: 9999,
        stock_quantity: 100,
        attributes: Some(r#"{"brand": "TestBrand", "category": "Electronics"}"#.to_string()),
        is_active: true,
    };

    assert!(!valid_request.name.is_empty());
    assert!(valid_request.price >= 0);
    assert!(valid_request.stock_quantity >= 0);
    assert!(valid_request.is_active);
}

// ===== unit tests of validation =====

#[test]
fn test_product_name_validation() {
    let valid_names = vec![
        "Product Name",
        "Test Product 123",
        "Product-With-Dashes",
        "Product_With_Underscores",
    ];

    let invalid_names = vec!["", "   ", "A"];

    for name in valid_names {
        let request = CreateProductRequest {
            name: name.to_string(),
            short_description: Some("Description".to_string()),
            description: Some("Long description".to_string()),
            price: 9999,
            stock_quantity: 100,
            attributes: None,
            is_active: true,
        };
        assert!(!request.name.is_empty(), "Nome válido falhou: '{}'", name);
    }

    for name in invalid_names {
        let request = CreateProductRequest {
            name: name.to_string(),
            short_description: Some("Description".to_string()),
            description: Some("Long description".to_string()),
            price: 9999,
            stock_quantity: 100,
            attributes: None,
            is_active: true,
        };
        if name.trim().is_empty() {
            assert!(
                request.name.trim().is_empty(),
                "Nome vazio deve ser detectado: '{}'",
                name
            );
        } else if name.len() < 2 {
            assert!(
                request.name.len() < 2,
                "Nome muito curto deve ser detectado: '{}'",
                name
            );
        }
    }
}

#[test]
fn test_product_price_validation() {
    let valid_prices = vec![0, 100, 9999, 100000, 999999];

    let invalid_prices = vec![-1000, -1];

    for price in valid_prices {
        let request = CreateProductRequest {
            name: "Test Product".to_string(),
            short_description: Some("Description".to_string()),
            description: Some("Long description".to_string()),
            price,
            stock_quantity: 100,
            attributes: None,
            is_active: true,
        };
        assert!(request.price >= 0, "Preço válido falhou: {}", price);
    }

    for price in invalid_prices {
        let request = CreateProductRequest {
            name: "Test Product".to_string(),
            short_description: Some("Description".to_string()),
            description: Some("Long description".to_string()),
            price,
            stock_quantity: 100,
            attributes: None,
            is_active: true,
        };
        assert!(request.price < 0, "Preço inválido passou: {}", price);
    }
}

#[test]
fn test_product_stock_validation() {
    let valid_stocks = vec![0, 1, 100, 1000, 999999];

    let invalid_stocks = vec![-100, -1];

    for stock in valid_stocks {
        let request = CreateProductRequest {
            name: "Test Product".to_string(),
            short_description: Some("Description".to_string()),
            description: Some("Long description".to_string()),
            price: 9999,
            stock_quantity: stock,
            attributes: None,
            is_active: true,
        };
        assert!(
            request.stock_quantity >= 0,
            "Estoque válido falhou: {}",
            stock
        );
    }

    for stock in invalid_stocks {
        let request = CreateProductRequest {
            name: "Test Product".to_string(),
            short_description: Some("Description".to_string()),
            description: Some("Long description".to_string()),
            price: 9999,
            stock_quantity: stock,
            attributes: None,
            is_active: true,
        };
        assert!(
            request.stock_quantity < 0,
            "Estoque inválido passou: {}",
            stock
        );
    }
}

// ===== simulated integration tests =====

#[test]
fn test_product_service_error_handling() {
    let error = AppError::not_found("Produto não encontrado");

    match error {
        AppError::NotFound(msg) => {
            assert_eq!(msg, Some("Produto não encontrado".to_string()));
        }
        _ => panic!("Esperava erro NotFound"),
    }
}

#[test]
fn test_product_service_database_error_handling() {
    let error = AppError::database_error("Erro de conexão com banco");

    match error {
        AppError::DatabaseError(msg) => {
            assert_eq!(msg, Some("Erro de conexão com banco".to_string()));
        }
        _ => panic!("Esperava erro DatabaseError"),
    }
}
