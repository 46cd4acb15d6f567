//! The page kinds the server renders, each carrying its render-ready data,
//! and the mapping from handler outcomes to that data. The template files
//! themselves are filled in by the surrounding web layer.

use vstd::prelude::*;

verus! {

use vstd::string::StringExecFns;
use crate::article::FrontMatter;
use crate::article::sort_posts_by_order_desc;
use crate::article::sorted_by_order_desc;
use crate::handlers::DeleteOutcome;
use crate::handlers::SubscribeOutcome;
use crate::handlers::VerifyOutcome;

/// The home page: the post summaries, in listing order.
pub struct HomeIndexData {
    pub posts: Vec<FrontMatter>,
}

impl HomeIndexData {
    /// The logical template name the home page is rendered with.
    pub fn template_path(&self) -> (r: &'static str)
        ensures
            r@ == "home/index.html"@,
    {
        "home/index.html"
    }
}

/// A post page: the converted body and the front matter.
pub struct PostData {
    pub post: String,
    pub meta_data: FrontMatter,
}

impl PostData {
    /// The logical template name a post is rendered with.
    pub fn template_path(&self) -> (r: &'static str)
        ensures
            r@ == "post/post.html"@,
    {
        "post/post.html"
    }
}

/// The inline fragment answering a subscribe form submission.
pub struct SubscribeResponseData {
    pub has_error: bool,
    pub error_msg: String,
}

impl SubscribeResponseData {
    /// The logical template name of the subscribe response fragment.
    pub fn template_path(&self) -> (r: &'static str)
        ensures
            r@ == "subscribe/_response.html"@,
    {
        "subscribe/_response.html"
    }
}

/// The page answering a verify or unsubscribe link.
pub struct SubscribeVerifyData {
    pub email_deleted: bool,
    pub has_error: bool,
    pub already_verified: bool,
    pub error_msg: Option<String>,
}

impl SubscribeVerifyData {
    /// The logical template name of the verification page.
    pub fn template_path(&self) -> (r: &'static str)
        ensures
            r@ == "subscribe/email_confirm.html"@,
    {
        "subscribe/email_confirm.html"
    }
}

/// The data of the home page: the summaries sorted by display order,
/// highest first.
pub fn home_index(front_matters: Vec<FrontMatter>) -> (r: HomeIndexData)
    ensures
        sorted_by_order_desc(r.posts@),
        r.posts@.to_multiset() == front_matters@.to_multiset(),
{
    HomeIndexData { posts: sort_posts_by_order_desc(front_matters) }
}

/// The fragment answering a subscribe request: a validation failure or a
/// failed confirmation email reads as a generic retry message, a duplicate
/// address is named as such, and an accepted subscription with its email
/// delivered reports no error.
pub fn subscribe_response(outcome: &SubscribeOutcome, email_sent: bool) -> (r:
    SubscribeResponseData)
    ensures
        r.has_error == !(outcome is Subscribed && email_sent),
        outcome is Subscribed && email_sent ==> r.error_msg@ == Seq::<char>::empty(),
        outcome is AlreadyRegistered ==> r.error_msg@ == "that email is already registered"@,
        outcome is InvalidEmail || (outcome is Subscribed && !email_sent) ==> r.error_msg@
            == "could not subscribe you, please try again"@,
{
    match outcome {
        SubscribeOutcome::Subscribed { .. } => {
            if email_sent {
                SubscribeResponseData { has_error: false, error_msg: String::new() }
            } else {
                SubscribeResponseData {
                    has_error: true,
                    error_msg: String::from_str("could not subscribe you, please try again"),
                }
            }
        },
        SubscribeOutcome::AlreadyRegistered => SubscribeResponseData {
            has_error: true,
            error_msg: String::from_str("that email is already registered"),
        },
        SubscribeOutcome::InvalidEmail => SubscribeResponseData {
            has_error: true,
            error_msg: String::from_str("could not subscribe you, please try again"),
        },
    }
}

/// The page answering a verification link: a token that resolves reports
/// whether it was already verified; one that does not reads as an error.
pub fn verify_response(outcome: &VerifyOutcome) -> (r: SubscribeVerifyData)
    ensures
        r.email_deleted == false,
        r.already_verified == (outcome is AlreadyVerified),
        r.has_error == (outcome is TokenNotFound || outcome is SubscriberMissing),
        r.has_error <==> (r.error_msg matches Some(m) && m@
            == "could not verify your subscription, please try again"@),
{
    match outcome {
        VerifyOutcome::TokenNotFound | VerifyOutcome::SubscriberMissing => SubscribeVerifyData {
            email_deleted: false,
            has_error: true,
            already_verified: false,
            error_msg: Some(
                String::from_str("could not verify your subscription, please try again"),
            ),
        },
        VerifyOutcome::AlreadyVerified => SubscribeVerifyData {
            email_deleted: false,
            has_error: false,
            already_verified: true,
            error_msg: None,
        },
        VerifyOutcome::NewlyVerified => SubscribeVerifyData {
            email_deleted: false,
            has_error: false,
            already_verified: false,
            error_msg: None,
        },
    }
}

/// The page answering an unsubscribe link: both a removed subscriber and an
/// unknown token read as a completed deletion.
pub fn delete_response(_outcome: &DeleteOutcome) -> (r: SubscribeVerifyData)
    ensures
        r.email_deleted == true,
        r.has_error == false,
        r.already_verified == false,
        r.error_msg is None,
{
    SubscribeVerifyData {
        email_deleted: true,
        has_error: false,
        already_verified: false,
        error_msg: None,
    }
}

} // verus!
