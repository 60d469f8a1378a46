//! Site content served by the public API of a white label: posts, pages and
//! media records, and the statements that change products.
use vstd::prelude::*;
use crate::text::{push_str, to_owned_string};

verus! {

broadcast use vstd::string::group_string_axioms;

/// A blog post.
pub struct Post {
    pub id: String,
    pub white_label_id: String,
    pub title: String,
    pub slug: String,
    pub content: String,
    pub excerpt: Option<String>,
    pub featured_image_url: Option<String>,
    pub is_published: bool,
    pub published_at: Option<String>,
    pub created_at: String,
    pub updated_at: String,
}

/// A static page.
pub struct Page {
    pub id: String,
    pub white_label_id: String,
    pub title: String,
    pub slug: String,
    pub content: String,
    pub is_published: bool,
    pub created_at: String,
    pub updated_at: String,
}

/// An uploaded media file.
pub struct Media {
    pub id: String,
    pub white_label_id: String,
    pub filename: String,
    pub media_type: String,
    pub mime_type: String,
    pub size_bytes: i64,
    pub url: String,
    pub created_at: String,
}

/// Which fields a product update sets.
pub struct ProductUpdateFields {
    pub title: bool,
    pub description: bool,
    pub price: bool,
    pub currency: bool,
    pub image_url: bool,
    pub is_published: bool,
}

pub open spec fn part(present: bool, text: Seq<char>) -> Seq<char> {
    if present { text } else { Seq::empty() }
}

/// The update statement of a product: the timestamp always, each given field
/// in the order title, description, price, currency, image, published flag,
/// and the restriction to the requesting site.
pub open spec fn product_update_query(f: ProductUpdateFields) -> Seq<char> {
    "UPDATE $id SET updated_at = time::now()"@
        + part(f.title, ", title = $title"@)
        + part(f.description, ", description = $description"@)
        + part(f.price, ", price = $price"@)
        + part(f.currency, ", currency = $currency"@)
        + part(f.image_url, ", image_url = $image_url"@)
        + part(f.is_published, ", is_published = $is_published"@)
        + " WHERE white_label_id = $white_label_id"@
}

fn push_part(q: &mut String, present: bool, text: &str)
    ensures
        final(q)@ == old(q)@ + part(present, text@),
{
    if present {
        push_str(q, text);
    } else {
        assert(old(q)@ + Seq::<char>::empty() =~= old(q)@);
    }
}

/// Build the update statement of a product.
pub fn build_product_update_query(f: &ProductUpdateFields) -> (res: String)
    ensures
        res@ == product_update_query(*f),
{
    let mut q = to_owned_string("UPDATE $id SET updated_at = time::now()");
    push_part(&mut q, f.title, ", title = $title");
    push_part(&mut q, f.description, ", description = $description");
    push_part(&mut q, f.price, ", price = $price");
    push_part(&mut q, f.currency, ", currency = $currency");
    push_part(&mut q, f.image_url, ", image_url = $image_url");
    push_part(&mut q, f.is_published, ", is_published = $is_published");
    push_str(&mut q, " WHERE white_label_id = $white_label_id");
    q
}

/// The currency of a new product: the given one, `EUR` by default.
pub fn product_currency(currency: Option<&str>) -> (res: String)
    ensures
        res@ == match currency {
            Some(c) => c@,
            None => "EUR"@,
        },
{
    match currency {
        Some(c) => to_owned_string(c),
        None => to_owned_string("EUR"),
    }
}

} // verus!
