use eggbug::de;
use eggbug::ser::Block;
use eggbug::{
    split_paragraphs, Ask, AskId, Attachment, AttachmentId, Error, Finished, MediaMetadata, Post,
    PostId, ProjectId, Timestamp,
};

fn image() -> Attachment {
    Attachment::new(
        vec![1, 2, 3],
        "a.png".to_string(),
        "image/png".to_string(),
        MediaMetadata::Image { width: Some(1), height: Some(1) },
    )
}

fn markdown_of(blocks: &[Block]) -> Vec<String> {
    blocks
        .iter()
        .filter_map(|b| match b {
            Block::Markdown { markdown } => Some(markdown.content.clone()),
            Block::Attachment { .. } => None,
        })
        .collect()
}

#[test]
fn markdown_splits_into_paragraph_blocks() {
    let post = Post { markdown: "a\n\nb\n\nc".to_string(), ..Default::default() };
    let body = post.as_api(false, None);
    assert_eq!(body.blocks.len(), 3);
    assert_eq!(markdown_of(&body.blocks), vec!["a", "b", "c"]);
}

#[test]
fn paragraph_split_edges() {
    assert_eq!(split_paragraphs(""), vec![""]);
    assert_eq!(split_paragraphs("one"), vec!["one"]);
    assert_eq!(split_paragraphs("a\n\n\nb"), vec!["a", "\nb"]);
    assert_eq!(split_paragraphs("a\nb\n"), vec!["a\nb\n"]);
    assert_eq!(split_paragraphs("\n\n"), vec!["", ""]);
    assert_eq!(split_paragraphs("x\n\n\n\ny"), vec!["x", "", "y"]);
    assert_eq!(split_paragraphs("é\n\nü"), vec!["é", "ü"]);
}

#[test]
fn empty_markdown_has_no_blocks() {
    let post = Post { headline: "h".to_string(), ..Default::default() };
    assert!(post.as_api(false, None).blocks.is_empty());
}

#[test]
fn body_copies_fields_and_state() {
    let post = Post {
        adult_content: true,
        headline: "head".to_string(),
        tags: vec!["t1".to_string(), "t2".to_string()],
        content_warnings: vec!["cw".to_string()],
        draft: false,
        ..Default::default()
    };
    let body = post.as_api(false, Some(PostId(9)));
    assert!(body.adult_content);
    assert_eq!(body.headline, "head");
    assert_eq!(body.tags, vec!["t1", "t2"]);
    assert_eq!(body.cws, vec!["cw"]);
    assert_eq!(body.post_state, 1);
    assert_eq!(body.share_of_post_id, Some(PostId(9)));
    assert_eq!(post.as_api(true, None).post_state, 0);
    let draft = Post { draft: true, headline: "h".to_string(), ..Default::default() };
    assert_eq!(draft.as_api(false, None).post_state, 0);
}

#[test]
fn attachment_blocks_come_first_with_id_text() {
    let mut done = image().with_alt_text("alt".to_string());
    let _ = done.begin_upload();
    done.finish_upload(Finished {
        attachment_id: AttachmentId(0x67e55044_10b1_426f_9247_bb680e5fe0c8),
        url: "u".to_string(),
    });
    let post = Post { attachments: vec![done, image()], markdown: "m".to_string(), ..Default::default() };
    let body = post.as_api(false, None);
    assert_eq!(body.blocks.len(), 3);
    match &body.blocks[0] {
        Block::Attachment { attachment } => {
            assert_eq!(attachment.attachment_id, "67e55044-10b1-426f-9247-bb680e5fe0c8");
            assert_eq!(attachment.alt_text.as_deref(), Some("alt"));
        }
        _ => panic!("expected an attachment block"),
    }
    match &body.blocks[1] {
        Block::Attachment { attachment } => assert_eq!(attachment.attachment_id, ""),
        _ => panic!("expected an attachment block"),
    }
    assert_eq!(markdown_of(&body.blocks), vec!["m"]);
}

#[test]
fn empty_post_is_refused_unless_shared() {
    let post = Post::default();
    assert!(post.is_empty());
    assert!(matches!(post.validate(None), Err(Error::EmptyPost)));
    assert!(matches!(post.validate(Some(PostId(1))), Ok(false)));
}

#[test]
fn failed_attachment_is_refused() {
    let mut a = image();
    let _ = a.begin_upload();
    let post = Post {
        headline: "h".to_string(),
        markdown: "m".to_string(),
        attachments: vec![image(), a],
        ..Default::default()
    };
    assert!(!post.is_empty());
    assert!(matches!(post.validate(None), Err(Error::FailedAttachment)));
    assert!(matches!(post.validate(Some(PostId(3))), Err(Error::FailedAttachment)));
}

#[test]
fn pending_attachment_needs_upload() {
    let post = Post { attachments: vec![image()], ..Default::default() };
    assert!(matches!(post.validate(None), Ok(true)));
    let text = Post { headline: "h".to_string(), ..Default::default() };
    assert!(matches!(text.validate(None), Ok(false)));
}

#[test]
fn error_messages() {
    assert_eq!(Error::EmptyPost.message(), "post is empty (no headline, attachments, or markdown)");
    assert_eq!(Error::FailedAttachment.message(), "attempted to use post with failed attachment");
}

fn project(handle: &str) -> de::PostingProject {
    de::PostingProject {
        handle: handle.to_string(),
        display_name: None,
        dek: None,
        description: None,
        avatar_url: String::new(),
        avatar_preview_url: String::new(),
        project_id: ProjectId(1),
        privacy: "public".to_string(),
        pronouns: None,
        url: None,
        avatar_shape: "circle".to_string(),
    }
}

fn api_post(id: u64, related: Vec<de::PostingProject>, share_tree: Vec<de::Post>) -> de::Post {
    de::Post {
        blocks: vec![
            de::Block::Markdown { markdown: de::Markdown { content: "hi".to_string() } },
            de::Block::Attachment {
                attachment: de::Attachment {
                    alt_text: Some("alt".to_string()),
                    attachment_id: AttachmentId(5),
                    file_url: "https://cdn.example/f.png".to_string(),
                    preview_url: "https://cdn.example/p.png".to_string(),
                },
            },
        ],
        can_publish: true,
        can_share: true,
        comments_locked: false,
        contributor_block_incoming_or_outgoing: false,
        cws: vec![],
        effective_adult_content: false,
        filename: format!("{}-this-is-a-test-post", id),
        has_any_contributor_muted: false,
        has_cohost_plus: false,
        headline: "This is a test post.".to_string(),
        is_editor: true,
        is_liked: false,
        num_comments: 0,
        num_shared_comments: 0,
        pinned: false,
        plain_text_body: "hi".to_string(),
        post_edit_url: "https://example/edit".to_string(),
        post_id: PostId(id),
        posting_project: project("eggbug"),
        published_at: Timestamp { secs: 1_667_531_869, nanos: 0 },
        related_projects: related,
        share_tree,
        single_post_page_url: "https://example/post".to_string(),
        state: 1,
        tags: vec!["a".to_string(), "b".to_string(), "c".to_string()],
        transparent_share_of_post_id: None,
    }
}

#[test]
fn test_convert_post() {
    let post = api_post(185_838, vec![], vec![]);
    let converted_post = Post::from_api(api_post(185_838, vec![], vec![]));
    let converted_post_metadata = converted_post.metadata.expect("No metadata for converted post!");
    assert_eq!(post.post_id, converted_post_metadata.locations.id);
    assert!(!converted_post.attachments.is_empty());
    assert_eq!(converted_post_metadata.publication_date.timestamp(), 1_667_531_869);
}

#[test]
fn converted_post_keeps_fields() {
    let post = Post::from_api(api_post(185_838, vec![], vec![]));
    assert_eq!(post.headline, "This is a test post.");
    assert_eq!(post.markdown, "hi");
    assert_eq!(post.tags.len(), 3);
    assert!(!post.draft);
    assert_eq!(post.attachments.len(), 1);
    assert_eq!(post.attachments[0].id(), Some(AttachmentId(5)));
    assert_eq!(post.attachments[0].url(), Some("https://cdn.example/f.png"));
    assert_eq!(post.attachments[0].alt_text.as_deref(), Some("alt"));
    let meta = post.metadata.unwrap();
    assert_eq!(meta.locations.filename, "185838-this-is-a-test-post");
    assert_eq!(meta.related_projects, vec!["eggbug"]);
    assert_eq!(meta.posting_project_id, "eggbug");
}

#[test]
fn converted_post_walks_share_tree() {
    let inner = api_post(1, vec![], vec![]);
    let outer = api_post(185_916, vec![project("x"), project("y")], vec![inner]);
    let post = Post::from_api(outer);
    let meta = post.metadata.unwrap();
    assert_eq!(meta.related_projects, vec!["x", "y"]);
    assert_eq!(meta.share_tree.len(), 1);
    assert_eq!(meta.share_tree[0].metadata.as_ref().unwrap().locations.id, PostId(1));
}

#[test]
fn page_converts_each_post() {
    let page = de::PostPage {
        n_items: 2,
        n_pages: 1,
        items: vec![api_post(1, vec![], vec![]), api_post(2, vec![], vec![])],
    };
    let posts = page.into_posts();
    assert_eq!(posts.len(), 2);
    assert_eq!(posts[1].metadata.as_ref().unwrap().locations.id, PostId(2));
}

#[test]
fn draft_state_converts() {
    let mut api = api_post(3, vec![], vec![]);
    api.state = 0;
    assert!(Post::from_api(api).draft);
}

#[test]
fn ask_id_reads_back() {
    let ask = Ask {
        ask_id: AskId("abc".to_string()),
        asker: None,
        content: "q".to_string(),
        sent_at: Timestamp { secs: 5, nanos: 0 },
    };
    assert_eq!(ask.id(), "abc");
    assert_eq!(ask.sent_at.timestamp(), 5);
}
