//! Articles: the front matter that describes a post, conversion of the
//! markdown body to HTML, assembly of the post page, and the ordering of
//! the post listing.

use vstd::prelude::*;

verus! {

use vstd::multiset::Multiset;
use crate::views::PostData;

/// The metadata stored beside each article body.
#[derive(Debug, Clone, PartialEq, Eq)]
pub struct FrontMatter {
    pub title: String,
    pub file_name: String,
    pub description: String,
    pub posted: String,
    pub thumbnail: String,
    pub tags: Vec<String>,
    pub author: String,
    pub estimated_reading_time: u32,
    pub order: u32,
}

/// What the markdown converter emits for a given markdown text.
pub uninterp spec fn html_of(markdown: Seq<char>) -> Seq<char>;

/// Relies on pulldown-cmark's `Parser::new_ext` and `html::push_html` with
/// default options: the emitted HTML is a function of the markdown text
/// alone.
#[verifier::external_body]
fn markdown_to_html(markdown: &str) -> (r: String)
    ensures
        r@ == html_of(markdown@),
{
    let parser = pulldown_cmark::Parser::new_ext(markdown, pulldown_cmark::Options::empty());
    let mut html_output = String::new();
    pulldown_cmark::html::push_html(&mut html_output, parser);
    html_output
}

/// How the front matter file beside an article came in.
pub enum FrontMatterLoad {
    /// The file was not there.
    Missing,
    /// The file was there but did not parse.
    Malformed,
    /// The parsed record.
    Loaded(FrontMatter),
}

/// The page a post request resolves to.
pub enum PostPage {
    /// A missing body or missing front matter reads as a missing post.
    NotFound,
    /// Front matter that does not parse is a server-side fault.
    InternalError,
    /// The page data: converted body plus metadata.
    Rendered(PostData),
}

/// Builds the page for one post from what was read off disk: a missing body
/// or missing front matter gives the not-found page, malformed front matter
/// the error page, and otherwise the body is converted to HTML and paired
/// with the metadata.
pub fn render_post(markdown: Option<String>, front_matter: FrontMatterLoad) -> (r: PostPage)
    ensures
        markdown is None ==> r is NotFound,
        markdown is Some && front_matter is Missing ==> r is NotFound,
        markdown is Some && front_matter is Malformed ==> r is InternalError,
        markdown is Some && front_matter is Loaded ==> (r matches PostPage::Rendered(pd)
            && pd.post@ == html_of(markdown.unwrap()@) && pd.meta_data == front_matter->Loaded_0),
{
    let md = match markdown {
        Some(md) => md,
        None => {
            return PostPage::NotFound;
        },
    };
    match front_matter {
        FrontMatterLoad::Missing => PostPage::NotFound,
        FrontMatterLoad::Malformed => PostPage::InternalError,
        FrontMatterLoad::Loaded(fm) => {
            let html = markdown_to_html(md.as_str());
            PostPage::Rendered(PostData { post: html, meta_data: fm })
        },
    }
}

/// The listing order of the home page: display order, highest first.
pub open spec fn sorted_by_order_desc(posts: Seq<FrontMatter>) -> bool {
    forall|i: int, j: int| 0 <= i < j < posts.len() ==> #[trigger] posts[i].order >= #[trigger] posts[j].order
}

/// Sorts the post summaries by their display order, highest first; the
/// result holds exactly the given records.
pub fn sort_posts_by_order_desc(posts: Vec<FrontMatter>) -> (r: Vec<FrontMatter>)
    ensures
        sorted_by_order_desc(r@),
        r@.to_multiset() == posts@.to_multiset(),
{
    let ghost orig = posts@;
    let mut input = posts;
    let mut out: Vec<FrontMatter> = Vec::new();
    proof {
        broadcast use vstd::multiset::group_multiset_axioms;

        out@.to_multiset_ensures();
        assert(out@.to_multiset() =~= Multiset::<FrontMatter>::empty());
        assert(out@.to_multiset().add(input@.to_multiset()) =~= orig.to_multiset());
    }
    while input.len() > 0
        invariant
            out@.to_multiset().add(input@.to_multiset()) == orig.to_multiset(),
            sorted_by_order_desc(out@),
            forall|i: int, j: int|
                0 <= i < out@.len() && 0 <= j < input@.len() ==> #[trigger] out@[i].order
                    >= #[trigger] input@[j].order,
        decreases input@.len(),
    {
        let mut best: usize = 0;
        let mut j: usize = 1;
        while j < input.len()
            invariant
                input@.len() > 0,
                best < j <= input@.len(),
                forall|q: int| 0 <= q < j ==> #[trigger] input@[q].order <= input@[best as int].order,
            decreases input@.len() - j,
        {
            if input[j].order > input[best].order {
                best = j;
            }
            j += 1;
        }
        let ghost prev = input@;
        let ghost prev_out = out@;
        let fm = input.remove(best);
        out.push(fm);
        proof {
            broadcast use vstd::multiset::group_multiset_axioms;

            vstd::seq_lib::to_multiset_build(prev_out, fm);
            vstd::seq_lib::to_multiset_remove(prev, best as int);
            prev.to_multiset_ensures();
            assert(out@ == prev_out.push(fm));
            assert(input@ == prev.remove(best as int));
            assert(prev.contains(prev[best as int]));
            assert(prev.to_multiset().count(prev[best as int]) > 0);
            assert(out@.to_multiset().add(input@.to_multiset()) =~= orig.to_multiset());
            assert(forall|q: int|
                0 <= q < input@.len() ==> #[trigger] input@[q].order <= fm.order);
        }
    }
    proof {
        broadcast use vstd::multiset::group_multiset_axioms;

        input@.to_multiset_ensures();
        assert(input@.to_multiset() =~= Multiset::<FrontMatter>::empty());
        assert(out@.to_multiset() =~= orig.to_multiset());
    }
    out
}

} // verus!
