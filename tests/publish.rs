use eggbug::ser::Block;
use eggbug::{
    finish_path_of, post_path_of, posts_path_of, with_trailing_slash, Action, Attachment,
    AttachmentId, Error, Event, Finished, MediaMetadata, Method, Phase, Post, PostId, Publish,
};

fn image() -> Attachment {
    Attachment::new(
        vec![9; 16],
        "t.png".to_string(),
        "image/png".to_string(),
        MediaMetadata::Image { width: Some(4), height: Some(4) },
    )
}

fn attachment_ids(blocks: &[Block]) -> Vec<String> {
    blocks
        .iter()
        .filter_map(|b| match b {
            Block::Attachment { attachment } => Some(attachment.attachment_id.clone()),
            Block::Markdown { .. } => None,
        })
        .collect()
}

#[test]
fn paths() {
    assert_eq!(posts_path_of("eggbug"), "project/eggbug/posts");
    assert_eq!(post_path_of("eggbug", PostId(185_838)), "project/eggbug/posts/185838");
    assert_eq!(post_path_of("p", PostId(0)), "project/p/posts/0");
    assert_eq!(
        post_path_of("p", PostId(u64::MAX)),
        "project/p/posts/18446744073709551615"
    );
    assert_eq!(
        finish_path_of("p", PostId(42), AttachmentId(0xff)),
        "project/p/posts/42/attach/finish/00000000-0000-0000-0000-0000000000ff"
    );
}

#[test]
fn base_url_gets_trailing_slash() {
    assert_eq!(with_trailing_slash("https://x/api/v1".to_string()), "https://x/api/v1/");
    assert_eq!(with_trailing_slash("https://x/api/v1/".to_string()), "https://x/api/v1/");
    assert_eq!(with_trailing_slash(String::new()), "/");
}

#[test]
fn publish_with_pending_image_end_to_end() {
    let mut post = Post { headline: "t".to_string(), attachments: vec![image()], ..Default::default() };
    let mut publish = Publish::create("eggbug", None);

    // The create request: forced draft, empty attachment ID.
    match publish.step(&post, Event::Start) {
        Action::Send(req) => {
            assert_eq!(req.method, Method::Post);
            assert_eq!(req.path, "project/eggbug/posts");
            assert_eq!(req.body.post_state, 0);
            assert_eq!(req.body.headline, "t");
            assert_eq!(attachment_ids(&req.body.blocks), vec![""]);
        }
        other => panic!("unexpected {:?}", other),
    }

    // Exactly one upload, against the post ID from the response.
    let id = match publish.step(&post, Event::Created(PostId(42))) {
        Action::Upload(id) => id,
        other => panic!("unexpected {:?}", other),
    };
    assert_eq!(id, PostId(42));
    let mut uploads = 0;
    for a in post.attachments.iter_mut() {
        if let Some(_pending) = a.begin_upload().unwrap() {
            uploads += 1;
            a.finish_upload(Finished {
                attachment_id: AttachmentId(0x67e55044_10b1_426f_9247_bb680e5fe0c8),
                url: "https://cdn.example/t.png".to_string(),
            });
        }
    }
    assert_eq!(uploads, 1);

    // The finalizing edit: published, with the resolved ID.
    match publish.step(&post, Event::Uploaded) {
        Action::Send(req) => {
            assert_eq!(req.method, Method::Put);
            assert_eq!(req.path, "project/eggbug/posts/42");
            assert_eq!(req.body.post_state, 1);
            assert_eq!(
                attachment_ids(&req.body.blocks),
                vec!["67e55044-10b1-426f-9247-bb680e5fe0c8"]
            );
        }
        other => panic!("unexpected {:?}", other),
    }

    // The result is the ID from the create response.
    assert!(matches!(publish.step(&post, Event::Finalized), Action::Finish(PostId(42))));
    assert_eq!(publish.phase, Phase::Done(PostId(42)));
}

#[test]
fn publish_without_attachments_takes_one_request() {
    let post = Post { markdown: "hello".to_string(), ..Default::default() };
    let mut publish = Publish::edit("eggbug", PostId(7));
    match publish.step(&post, Event::Start) {
        Action::Send(req) => {
            assert_eq!(req.method, Method::Put);
            assert_eq!(req.path, "project/eggbug/posts/7");
            assert_eq!(req.body.post_state, 1);
        }
        other => panic!("unexpected {:?}", other),
    }
    assert!(matches!(publish.step(&post, Event::Created(PostId(7))), Action::Finish(PostId(7))));
}

#[test]
fn publish_refuses_empty_post_but_shares_it() {
    let post = Post::default();
    let mut publish = Publish::create("eggbug", None);
    assert!(matches!(publish.step(&post, Event::Start), Action::Fail(Error::EmptyPost)));
    assert_eq!(publish.phase, Phase::Rejected);
    assert!(!publish.is_accepted(&Event::Start));

    let mut share = Publish::create("eggbug", Some(PostId(59547)));
    match share.step(&post, Event::Start) {
        Action::Send(req) => {
            assert_eq!(req.body.share_of_post_id, Some(PostId(59547)));
            assert!(req.body.blocks.is_empty());
        }
        other => panic!("unexpected {:?}", other),
    }
}

#[test]
fn publish_refuses_failed_attachment() {
    let mut failed = image();
    let _ = failed.begin_upload();
    let post = Post { headline: "h".to_string(), attachments: vec![failed], ..Default::default() };
    let mut publish = Publish::create("eggbug", Some(PostId(1)));
    assert!(matches!(publish.step(&post, Event::Start), Action::Fail(Error::FailedAttachment)));
}

#[test]
fn events_are_accepted_in_order() {
    let publish = Publish::create("p", None);
    assert!(publish.is_accepted(&Event::Start));
    assert!(!publish.is_accepted(&Event::Created(PostId(1))));
    assert!(!publish.is_accepted(&Event::Uploaded));
    assert!(!publish.is_accepted(&Event::Finalized));
}
