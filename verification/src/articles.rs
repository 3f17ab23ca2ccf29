//! The catalogue of the articles of the site.

use crate::text::{join, same_text};
use vstd::prelude::*;

verus! {

/// What the list of articles shows of an article.
#[derive(Clone, Copy, Debug, PartialEq, Eq)]
pub struct ArticleMetadata {
    pub slug: &'static str,
    pub title: &'static str,
    pub date: &'static str,
    pub description: &'static str,
}

/// One of the articles.
#[derive(Clone, Copy, Debug, PartialEq, Eq, Structural)]
pub enum ArticleId {
    GettingStartedWithRust,
    BuildingWebAppsWithLeptos,
    UnderstandingRustOwnership,
}

/// The article that a slug names.
pub open spec fn article_of(slug: Seq<char>) -> Option<ArticleId> {
    if slug == "getting-started-with-rust"@ {
        Some(ArticleId::GettingStartedWithRust)
    } else if slug == "building-web-apps-with-leptos"@ {
        Some(ArticleId::BuildingWebAppsWithLeptos)
    } else if slug == "understanding-rust-ownership"@ {
        Some(ArticleId::UnderstandingRustOwnership)
    } else {
        None
    }
}

/// All articles, in the order in which the list shows them. Their slugs are
/// the slugs that name an article.
pub fn get_all_articles() -> (articles: Vec<ArticleMetadata>)
    ensures
        articles@.len() == 3,
        articles@[0].slug@ == "getting-started-with-rust"@,
        articles@[0].title@ == "Getting Started with Rust"@,
        articles@[0].date@ == "2024-01-15"@,
        articles@[0].description@ == "A beginner's guide to the Rust programming language"@,
        articles@[1].slug@ == "building-web-apps-with-leptos"@,
        articles@[1].title@ == "Building Web Apps with Leptos"@,
        articles@[1].date@ == "2024-02-20"@,
        articles@[1].description@ == "Learn how to build reactive web applications using Leptos"@,
        articles@[2].slug@ == "understanding-rust-ownership"@,
        articles@[2].title@ == "Understanding Rust Ownership"@,
        articles@[2].date@ == "2024-03-10"@,
        articles@[2].description@ == "Deep dive into Rust's ownership system and borrowing rules"@,
        forall|slug: Seq<char>|
            article_of(slug) is Some <==> exists|i: int|
                0 <= i < articles@.len() && (#[trigger] articles@[i]).slug@ == slug,
{
    let mut articles: Vec<ArticleMetadata> = Vec::new();
    articles.push(
        ArticleMetadata {
            slug: "getting-started-with-rust",
            title: "Getting Started with Rust",
            date: "2024-01-15",
            description: "A beginner's guide to the Rust programming language",
        },
    );
    articles.push(
        ArticleMetadata {
            slug: "building-web-apps-with-leptos",
            title: "Building Web Apps with Leptos",
            date: "2024-02-20",
            description: "Learn how to build reactive web applications using Leptos",
        },
    );
    articles.push(
        ArticleMetadata {
            slug: "understanding-rust-ownership",
            title: "Understanding Rust Ownership",
            date: "2024-03-10",
            description: "Deep dive into Rust's ownership system and borrowing rules",
        },
    );
    assert forall|slug: Seq<char>| article_of(slug) is Some implies exists|i: int|
        0 <= i < articles@.len() && (#[trigger] articles@[i]).slug@ == slug by {
        if slug == "getting-started-with-rust"@ {
            assert(articles@[0].slug@ == slug);
        } else if slug == "building-web-apps-with-leptos"@ {
            assert(articles@[1].slug@ == slug);
        } else {
            assert(articles@[2].slug@ == slug);
        }
    }
    articles
}

/// The article to show for a slug, if the slug names one.
pub fn render_article(slug: &str) -> (article: Option<ArticleId>)
    ensures
        article == article_of(slug@),
{
    if same_text(slug, "getting-started-with-rust") {
        Some(ArticleId::GettingStartedWithRust)
    } else if same_text(slug, "building-web-apps-with-leptos") {
        Some(ArticleId::BuildingWebAppsWithLeptos)
    } else if same_text(slug, "understanding-rust-ownership") {
        Some(ArticleId::UnderstandingRustOwnership)
    } else {
        None
    }
}

/// Whether a slug names an article.
pub fn article_exists(slug: &str) -> (exists: bool)
    ensures
        exists == article_of(slug@) is Some,
{
    render_article(slug).is_some()
}

/// The address of the page of an article.
pub fn article_path(slug: &str) -> (path: String)
    ensures
        path@ == "/articles/"@ + slug@,
{
    join("/articles/", slug)
}

} // verus!
