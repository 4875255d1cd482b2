//! The catalog record, its stable identity, and its boundary projections.
//!
//! A record is created from a creation request: every caller-supplied field
//! is copied verbatim, a fresh globally-unique identity is minted, and the
//! derived price-per-kilogram field is forced to zero — it is never accepted
//! as caller input and is corrected later by the write protocol. The response
//! projection renders the identity in its canonical string form and passes
//! every other field through unchanged.

use vstd::prelude::*;
use crate::diameter::FilamentDiameter;
use crate::material::{FilamentMaterial, MaterialModel};
use crate::measure::{Cents, Grams};
use crate::retailer::{Retailer, RetailerModel};

verus! {

/// The table that holds catalog records in the backing store.
pub const TABLE_NAME: &'static str = "products";

/// A record's globally-unique identity, held in its canonical string form
/// (a UUID-shaped text). Immutable once created.
#[derive(Clone, Debug)]
pub struct ProductId {
    text: String,
}

impl View for ProductId {
    type V = Seq<char>;

    closed spec fn view(&self) -> Seq<char> {
        self.text@
    }
}

impl ProductId {
    /// Wraps an identity already rendered in its canonical string form, as
    /// read back from the store's wire shape.
    pub fn from_text(text: String) -> (id: ProductId)
        ensures
            id@ == text@,
    {
        ProductId { text }
    }

    /// The canonical string form, as used in store queries and responses.
    pub fn to_uuid_string(&self) -> (r: String)
        ensures
            r@ == self@,
    {
        self.text.clone()
    }
}

impl PartialEq for ProductId {
    /// Two identities are equal exactly when their canonical string forms are.
    fn eq(&self, other: &Self) -> (r: bool) {
        self.text == other.text
    }
}

impl vstd::std_specs::cmp::PartialEqSpecImpl for ProductId {
    open spec fn obeys_eq_spec() -> bool {
        true
    }

    open spec fn eq_spec(&self, other: &Self) -> bool {
        self@ == other@
    }
}

/// Relies on surrealdb::types::Uuid::new_v4 for a freshly drawn random
/// version-4 UUID, and on uuid's Display for its canonical hyphenated
/// rendering, which is always 36 characters. The value is random: nothing
/// further can be promised of it.
#[verifier::external_body]
fn mint_uuid_text() -> (r: String)
    ensures
        r@.len() == 36,
{
    surrealdb::types::Uuid::new_v4().into_inner().to_string()
}

/// The mathematical model of a record: each string as its characters, each
/// measurement as its raw integer, each enumeration as its model.
pub struct ProductModel {
    pub uuid: Seq<char>,
    pub name: Seq<char>,
    pub price: u32,
    pub price_per_kg: u32,
    pub url: Seq<char>,
    pub material: MaterialModel,
    pub diameter: FilamentDiameter,
    pub weight: u16,
    pub retailer: RetailerModel,
    pub retailer_product_id: Seq<char>,
    pub color: Seq<char>,
}

/// A catalog record: the single owned representation of one retailer-listed
/// filament spool.
#[derive(Clone, Debug)]
pub struct Product {
    pub uuid: ProductId,
    pub name: String,
    pub price: Cents,
    pub price_per_kg: Cents,
    pub url: String,
    pub material: FilamentMaterial,
    pub diameter: FilamentDiameter,
    pub weight: Grams,
    pub retailer: Retailer,
    pub retailer_product_id: String,
    pub color: String,
}

impl View for Product {
    type V = ProductModel;

    open spec fn view(&self) -> ProductModel {
        ProductModel {
            uuid: self.uuid@,
            name: self.name@,
            price: self.price.0,
            price_per_kg: self.price_per_kg.0,
            url: self.url@,
            material: self.material@,
            diameter: self.diameter,
            weight: self.weight.0,
            retailer: self.retailer@,
            retailer_product_id: self.retailer_product_id@,
            color: self.color@,
        }
    }
}

impl PartialEq for Product {
    /// Structural equality, field for field.
    fn eq(&self, other: &Self) -> (r: bool) {
        self.uuid == other.uuid && self.name == other.name && self.price == other.price
            && self.price_per_kg == other.price_per_kg && self.url == other.url
            && self.material == other.material && self.diameter == other.diameter
            && self.weight == other.weight && self.retailer == other.retailer
            && self.retailer_product_id == other.retailer_product_id && self.color == other.color
    }
}

impl vstd::std_specs::cmp::PartialEqSpecImpl for Product {
    open spec fn obeys_eq_spec() -> bool {
        true
    }

    open spec fn eq_spec(&self, other: &Self) -> bool {
        self@ == other@
    }
}

/// The mathematical model of a creation request: a record minus identity and
/// minus the derived field, both of which are assigned by the system.
pub struct RequestModel {
    pub name: Seq<char>,
    pub price: u32,
    pub url: Seq<char>,
    pub material: MaterialModel,
    pub diameter: FilamentDiameter,
    pub weight: u16,
    pub retailer: RetailerModel,
    pub retailer_product_id: Seq<char>,
    pub color: Seq<char>,
}

/// A creation request: every caller-suppliable field of a record. The
/// identity and the derived field cannot be supplied here.
pub struct ProductRequest {
    pub name: String,
    pub price: Cents,
    pub url: String,
    pub material: FilamentMaterial,
    pub diameter: FilamentDiameter,
    pub weight: Grams,
    pub retailer: Retailer,
    pub retailer_product_id: String,
    pub color: String,
}

impl View for ProductRequest {
    type V = RequestModel;

    open spec fn view(&self) -> RequestModel {
        RequestModel {
            name: self.name@,
            price: self.price.0,
            url: self.url@,
            material: self.material@,
            diameter: self.diameter,
            weight: self.weight.0,
            retailer: self.retailer@,
            retailer_product_id: self.retailer_product_id@,
            color: self.color@,
        }
    }
}

/// A record as rendered at the outbound boundary: the identity in its
/// canonical string form, every other field passed through.
pub struct ProductResponse {
    pub uuid: String,
    pub name: String,
    pub price: Cents,
    pub price_per_kg: Cents,
    pub url: String,
    pub material: FilamentMaterial,
    pub diameter: FilamentDiameter,
    pub weight: Grams,
    pub retailer: Retailer,
    pub retailer_product_id: String,
    pub color: String,
}

impl View for ProductResponse {
    type V = ProductModel;

    open spec fn view(&self) -> ProductModel {
        ProductModel {
            uuid: self.uuid@,
            name: self.name@,
            price: self.price.0,
            price_per_kg: self.price_per_kg.0,
            url: self.url@,
            material: self.material@,
            diameter: self.diameter,
            weight: self.weight.0,
            retailer: self.retailer@,
            retailer_product_id: self.retailer_product_id@,
            color: self.color@,
        }
    }
}

/// What a record created from a request must look like, apart from its
/// freshly minted identity: every caller-supplied field verbatim, and the
/// derived field forced to zero.
pub open spec fn created_from(p: ProductModel, req: RequestModel) -> bool {
    &&& p.name == req.name
    &&& p.price == req.price
    &&& p.price_per_kg == 0
    &&& p.url == req.url
    &&& p.material == req.material
    &&& p.diameter == req.diameter
    &&& p.weight == req.weight
    &&& p.retailer == req.retailer
    &&& p.retailer_product_id == req.retailer_product_id
    &&& p.color == req.color
}

/// The response projection as a function of the record: the identity is the
/// record's own, and every other field passes through unchanged.
pub open spec fn response_of(p: ProductModel) -> ProductModel {
    p
}

impl Product {
    /// Creates a record from a creation request: copies every caller-supplied
    /// field verbatim, mints a fresh identity, and forces the derived field
    /// to zero. The identity is freshly drawn at random; no two calls are
    /// related.
    pub fn from_request(request: ProductRequest) -> (p: Product)
        ensures
            created_from(p@, request@),
            p@.uuid.len() == 36,
    {
        Product {
            uuid: ProductId { text: mint_uuid_text() },
            name: request.name,
            price: request.price,
            price_per_kg: Cents(0),
            url: request.url,
            material: request.material,
            diameter: request.diameter,
            weight: request.weight,
            retailer: request.retailer,
            retailer_product_id: request.retailer_product_id,
            color: request.color,
        }
    }

    /// Projects the record into its outbound response shape. Pure and total:
    /// the same record always yields the same response.
    pub fn to_response(&self) -> (r: ProductResponse)
        ensures
            r@ == response_of(self@),
    {
        ProductResponse {
            uuid: self.uuid.to_uuid_string(),
            name: self.name.clone(),
            price: self.price,
            price_per_kg: self.price_per_kg,
            url: self.url.clone(),
            material: self.material.duplicate(),
            diameter: self.diameter,
            weight: self.weight,
            retailer: self.retailer.duplicate(),
            retailer_product_id: self.retailer_product_id.clone(),
            color: self.color.clone(),
        }
    }
}

/// Identity stability: any two responses projected from the same record —
/// at any two times — render the same identity string, because the
/// projection is a pure function and a record's identity never changes.
pub proof fn lemma_identity_stable(p: ProductModel, r1: ProductModel, r2: ProductModel)
    requires
        r1 == response_of(p),
        r2 == response_of(p),
    ensures
        r1.uuid == r2.uuid,
{
}

/// Creation forces the derived field to zero: whatever the request holds,
/// a record created from it starts with price-per-kilogram zero.
pub proof fn lemma_creation_zeroes_derived_field(p: ProductModel, req: RequestModel)
    requires
        created_from(p, req),
    ensures
        p.price_per_kg == 0,
{
}

} // verus!
