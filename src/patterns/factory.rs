//! Factories: a simple factory that picks the product by kind, a factory method per product,
//! and an abstract factory for a family of products.
use vstd::prelude::*;

verus! {

/// Something a factory makes: a named product.
pub trait Product {
    /// The product's name.
    spec fn label(&self) -> Seq<char>;

    /// A product named `name`.
    fn new(name: &str) -> (r: Self) where Self: Sized
        ensures
            r.label() == name@,
    ;

    /// What showing the product prints: its name.
    fn show(&self) -> (r: String)
        ensures
            r@ == self.label(),
    ;
}

/// The first kind of product.
#[derive(Debug)]
pub struct Product1 {
    name: String,
}

impl Product for Product1 {
    closed spec fn label(&self) -> Seq<char> {
        self.name@
    }

    fn new(name: &str) -> (r: Self) {
        Product1 { name: name.to_owned() }
    }

    fn show(&self) -> (r: String) {
        self.name.clone()
    }
}

/// The second kind of product.
#[derive(Debug)]
pub struct Product2 {
    name: String,
}

impl Product for Product2 {
    closed spec fn label(&self) -> Seq<char> {
        self.name@
    }

    fn new(name: &str) -> (r: Self) {
        Product2 { name: name.to_owned() }
    }

    fn show(&self) -> (r: String) {
        self.name.clone()
    }
}

/// The kinds of product the simple factory makes.
pub enum ProductEnum {
    Product1,
    Product2,
}

/// Makes a product of the kind asked for.
pub struct SimpleFactory;

impl SimpleFactory {
    /// A product of kind `name`, named `pro_name`.
    pub fn new(name: ProductEnum, pro_name: &str) -> (r: Box<dyn Product>) {
        match name {
            ProductEnum::Product1 => Box::new(Product1::new(pro_name)),
            ProductEnum::Product2 => Box::new(Product2::new(pro_name)),
        }
    }
}

/// A factory with one fixed product.
pub trait AbstractFactory {
    /// The product made.
    type Made: Product;

    /// A new product.
    fn new() -> Self::Made;
}

/// Makes the first kind of product.
pub struct Product1Factory;

impl AbstractFactory for Product1Factory {
    type Made = Product1;

    fn new() -> (r: Product1)
        ensures
            r.label() == "pro1 for factory method"@,
    {
        Product1::new("pro1 for factory method")
    }
}

/// Makes the second kind of product.
pub struct Product2Factory;

impl AbstractFactory for Product2Factory {
    type Made = Product2;

    fn new() -> (r: Product2)
        ensures
            r.label() == "pro2 for factory method"@,
    {
        Product2::new("pro2 for factory method")
    }
}

/// A factory for a family of products.
pub trait AbstractProductFactory {
    /// The first product of the family.
    type First: Product;

    /// The first product of the family, named `name`.
    fn create_pro1(name: &str) -> (r: Self::First)
        ensures
            r.label() == name@,
    ;
}

/// The family whose first product is [`Product1`].
pub struct Product1Factory1;

impl AbstractProductFactory for Product1Factory1 {
    type First = Product1;

    fn create_pro1(name: &str) -> (r: Product1) {
        Product1::new(name)
    }
}

} // verus!
