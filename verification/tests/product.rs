use japonfou::ids::product_id_generator;
use japonfou::product::{
    CreateProductRequest, NewProduct, UpdateProduct, UpdateProductRequest, ValidProductName,
};

#[test]
fn create_product_works() {
    let mut generator = product_id_generator();
    let request = CreateProductRequest { name: "  tea pot ".to_string(), currency: 344, price: 12.5 };
    let product = NewProduct::parse(request, &mut generator).expect("product refused");
    assert_eq!(product.name.0, "tea pot");
    assert_eq!(product.currency.0, 344);
    assert_eq!(product.price, 12.5);
}

#[test]
fn create_new_product_return_a_400_when_data_is_invalid() {
    let mut generator = product_id_generator();
    let request = CreateProductRequest { name: " \t\n".to_string(), currency: 344, price: 12.5 };
    assert_eq!(
        NewProduct::parse(request, &mut generator).err(),
        Some("Product name is empty.".to_string())
    );
    let request = CreateProductRequest { name: String::new(), currency: 344, price: 1u32 };
    assert!(NewProduct::parse(request, &mut generator).is_err());
}

#[test]
fn a_product_name_is_kept_without_the_space_around_it() {
    assert_eq!(ValidProductName::parse("cup").map(|n| n.0), Ok("cup".to_string()));
    assert_eq!(ValidProductName::parse(" a cup\u{3000}").map(|n| n.0), Ok("a cup".to_string()));
    assert_eq!(
        ValidProductName::parse("   ").map(|n| n.0),
        Err("Product name is empty.".to_string())
    );
}

#[test]
fn update_product_works() {
    let request = UpdateProductRequest {
        id: "42".to_string(),
        name: Some(" cup ".to_string()),
        currency: Some(840),
        price: Some(3.25),
    };
    let product = UpdateProduct::parse(request).expect("update refused");
    assert_eq!(product.id, 42);
    assert_eq!(product.name.as_ref().map(|n| n.0.as_str()), Some("cup"));
    assert_eq!(product.currency.as_ref().map(|c| c.0), Some(840));
    assert_eq!(product.price, Some(3.25));
    assert!(product.need_update());
}

#[test]
fn update_product_return_a_400_when_data_is_invalid() {
    let blank = UpdateProductRequest::<f64> {
        id: "forty-two".to_string(),
        name: Some("  ".to_string()),
        currency: None,
        price: None,
    };
    assert_eq!(
        UpdateProduct::parse(blank).err(),
        Some("Product name is empty.".to_string())
    );
    let no_id = UpdateProductRequest::<f64> {
        id: "forty-two".to_string(),
        name: None,
        currency: None,
        price: None,
    };
    assert_eq!(
        UpdateProduct::parse(no_id).err(),
        Some("Can't parse id to i64.".to_string())
    );
}

#[test]
fn an_update_without_fields_needs_no_write() {
    let request =
        UpdateProductRequest::<f64> { id: "+42".to_string(), name: None, currency: None, price: None };
    let product = UpdateProduct::parse(request).expect("update refused");
    assert_eq!(product.id, 42);
    assert!(!product.need_update());
}

#[test]
fn a_trimmed_name_is_accepted_unless_it_is_empty() {
    assert_eq!(ValidProductName::accept("cup".to_string()).map(|n| n.0), Ok("cup".to_string()));
    assert_eq!(
        ValidProductName::accept(String::new()).map(|n| n.0),
        Err("Product name is empty.".to_string())
    );
}
