//! The verified core of a product-review pipeline: a saved product page
//! becomes a Markdown summary, a prompt for a language model, a review page
//! in the site's template and an entry in the site index; around it, the
//! OAuth helpers and the posts that announce a new review.
pub mod text;
pub mod encode;
pub mod json;
pub mod markup;
pub mod sort;
pub mod images;
pub mod listing;
pub mod chat;
pub mod review;
pub mod article;
pub mod page;
pub mod index;
pub mod oauth;
pub mod fb_oauth;
pub mod x_oauth;
pub mod facebook;
pub mod ifttt;
pub mod medium;
pub mod pinterest;
pub mod tools;
pub mod laws;
