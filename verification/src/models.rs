//! The product as storage keeps it and as a client submits it.

use vstd::prelude::*;

verus! {

/// A stored product. Storage assigns `id` and `create_at` when the product
/// is created; neither changes afterwards.
#[derive(Debug, Clone, PartialEq, Eq)]
pub struct Product {
    pub id: i32,
    pub name: String,
    pub description: String,
    pub create_at: String,
}

/// What a stored product is in contracts.
pub struct ProductView {
    pub id: int,
    pub name: Seq<char>,
    pub description: Seq<char>,
    pub create_at: Seq<char>,
}

impl View for Product {
    type V = ProductView;

    open spec fn view(&self) -> ProductView {
        ProductView {
            id: self.id as int,
            name: self.name@,
            description: self.description@,
            create_at: self.create_at@,
        }
    }
}

/// A product as a client submits it: it has no identifier and no creation
/// time of its own.
#[derive(Debug, Clone, PartialEq, Eq)]
pub struct NewProduct {
    pub name: String,
    pub description: String,
}

/// What a submitted product is in contracts.
pub struct NewProductView {
    pub name: Seq<char>,
    pub description: Seq<char>,
}

impl View for NewProduct {
    type V = NewProductView;

    open spec fn view(&self) -> NewProductView {
        NewProductView { name: self.name@, description: self.description@ }
    }
}

/// The views of a run of products, in their order.
pub open spec fn views_of(products: Seq<Product>) -> Seq<ProductView> {
    products.map_values(|product: Product| product@)
}

} // verus!
