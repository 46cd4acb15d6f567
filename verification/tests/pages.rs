use mortenvistisen_blog::article::render_post;
use mortenvistisen_blog::article::FrontMatter;
use mortenvistisen_blog::article::FrontMatterLoad;
use mortenvistisen_blog::article::PostPage;
use mortenvistisen_blog::email_client::EmailClient;
use mortenvistisen_blog::handlers::DeleteOutcome;
use mortenvistisen_blog::repository::UserStore;
use mortenvistisen_blog::subscriber::ConfirmSubEmail;
use mortenvistisen_blog::subscriber::Email;
use mortenvistisen_blog::views::delete_response;
use mortenvistisen_blog::views::home_index;
use mortenvistisen_blog::views::HomeIndexData;
use mortenvistisen_blog::views::PostData;
use mortenvistisen_blog::views::SubscribeResponseData;
use mortenvistisen_blog::views::SubscribeVerifyData;

fn front_matter(title: &str, order: u32) -> FrontMatter {
    FrontMatter {
        title: title.to_string(),
        file_name: format!("{title}.md"),
        description: "a post".to_string(),
        posted: "2023-01-01".to_string(),
        thumbnail: "thumb.png".to_string(),
        tags: vec!["rust".to_string()],
        author: "morten".to_string(),
        estimated_reading_time: 7,
        order,
    }
}

#[test]
fn missing_article_body_gives_not_found_page() {
    let page = render_post(None, FrontMatterLoad::Missing);
    assert!(matches!(page, PostPage::NotFound));
    let page = render_post(None, FrontMatterLoad::Loaded(front_matter("a", 1)));
    assert!(matches!(page, PostPage::NotFound));
}

#[test]
fn missing_front_matter_gives_not_found_page() {
    let page = render_post(Some("# Hi".to_string()), FrontMatterLoad::Missing);
    assert!(matches!(page, PostPage::NotFound));
}

#[test]
fn malformed_front_matter_gives_internal_error_page() {
    let page = render_post(Some("# Hi".to_string()), FrontMatterLoad::Malformed);
    assert!(matches!(page, PostPage::InternalError));
}

#[test]
fn post_body_is_converted_to_html() {
    let fm = front_matter("hello", 3);
    let page = render_post(
        Some("# Hello\n\nSome *text*.".to_string()),
        FrontMatterLoad::Loaded(fm.clone()),
    );
    match page {
        PostPage::Rendered(data) => {
            assert_eq!(data.post, "<h1>Hello</h1>\n<p>Some <em>text</em>.</p>\n");
            assert_eq!(data.meta_data, fm);
        }
        other => panic!("expected a rendered page, got another page kind: {:?}", kind_of(&other)),
    }
}

fn kind_of(page: &PostPage) -> &'static str {
    match page {
        PostPage::NotFound => "not found",
        PostPage::InternalError => "internal error",
        PostPage::Rendered(_) => "rendered",
    }
}

#[test]
fn home_listing_is_sorted_by_order_descending() {
    let posts = vec![
        front_matter("oldest", 1),
        front_matter("newest", 3),
        front_matter("middle", 2),
    ];
    let data = home_index(posts);
    let orders: Vec<u32> = data.posts.iter().map(|p| p.order).collect();
    assert_eq!(orders, vec![3, 2, 1]);
    let titles: Vec<&str> = data.posts.iter().map(|p| p.title.as_str()).collect();
    assert_eq!(titles, vec!["newest", "middle", "oldest"]);
}

#[test]
fn home_listing_keeps_equal_orders_together() {
    let posts = vec![front_matter("a", 2), front_matter("b", 2), front_matter("c", 5)];
    let data = home_index(posts);
    assert_eq!(data.posts.len(), 3);
    assert_eq!(data.posts[0].order, 5);
    assert_eq!(data.posts[1].order, 2);
    assert_eq!(data.posts[2].order, 2);
}

#[test]
fn template_paths_name_the_page_kinds() {
    let home = HomeIndexData { posts: Vec::new() };
    assert_eq!(home.template_path(), "home/index.html");
    let post = PostData {
        post: String::new(),
        meta_data: front_matter("t", 1),
    };
    assert_eq!(post.template_path(), "post/post.html");
    let sub = SubscribeResponseData {
        has_error: false,
        error_msg: String::new(),
    };
    assert_eq!(sub.template_path(), "subscribe/_response.html");
    let verify = SubscribeVerifyData {
        email_deleted: false,
        has_error: false,
        already_verified: false,
        error_msg: None,
    };
    assert_eq!(verify.template_path(), "subscribe/email_confirm.html");
}

#[test]
fn delete_page_reads_as_deleted_either_way() {
    for outcome in [DeleteOutcome::Deleted, DeleteOutcome::AlreadyDeleted] {
        let page = delete_response(&outcome);
        assert!(page.email_deleted);
        assert!(!page.has_error);
        assert!(!page.already_verified);
        assert!(page.error_msg.is_none());
    }
}

#[test]
fn email_request_carries_sender_recipient_and_content() {
    let sender = Email::parse("news@mortenvistisen.com".to_string()).unwrap();
    let client = EmailClient::new(
        "https://api.postmarkapp.example".to_string(),
        "https://mortenvistisen.com".to_string(),
        sender,
        "postmark-server-token".to_string(),
    );
    assert_eq!(client.email_endpoint(), "https://api.postmarkapp.example/email");
    let recipient = Email::parse("a@b.com".to_string()).unwrap();
    let req = client.build_send_request(&recipient, "Thanks for subscribing!", "<p>Hi</p>");
    assert_eq!(req.from, "news@mortenvistisen.com");
    assert_eq!(req.to, "a@b.com");
    assert_eq!(req.subject, "Thanks for subscribing!");
    assert_eq!(req.html_body, "<p>Hi</p>");
    let confirm = ConfirmSubEmail {
        app_base_url: client.app_base_url.clone(),
        token: "t".repeat(25),
    };
    assert_eq!(confirm.app_base_url, "https://mortenvistisen.com");
}

#[test]
fn user_store_answers_existence_and_hash_lookup() {
    let mut users = UserStore::new();
    let admin = Email::parse("admin@mortenvistisen.com".to_string()).unwrap();
    assert!(!users.does_user_exists(&admin));
    assert_eq!(users.get_user_hashed_password(&admin), None);
    users.create_new_user(&admin, "$argon2id$fake-hash");
    assert!(users.does_user_exists(&admin));
    assert_eq!(
        users.get_user_hashed_password(&admin),
        Some("$argon2id$fake-hash".to_string())
    );
}
