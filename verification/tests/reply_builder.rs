//! Tests for the reply builder and its serializations to the outbound
//! payload shapes.

use poise::reply::{
    ActionRow, AllowedMentions, Attachment, CreateReply, Embed, Message,
};

fn embed(p: &str) -> Embed {
    Embed {
        payload: p.to_string(),
    }
}

fn attachment(p: &str) -> Attachment {
    Attachment {
        payload: p.to_string(),
    }
}

fn row(p: &str) -> ActionRow {
    ActionRow {
        payload: p.to_string(),
    }
}

fn mentions(p: &str) -> AllowedMentions {
    AllowedMentions {
        payload: p.to_string(),
    }
}

#[test]
fn new_reply_is_blank() {
    let r = CreateReply::new();
    assert!(r.content.is_none());
    assert!(r.embeds.is_empty());
    assert!(r.attachments.is_empty());
    assert!(r.ephemeral.is_none());
    assert!(r.components.is_none());
    assert!(r.allowed_mentions.is_none());
    assert!(!r.reply);
}

#[test]
fn builder_methods_set_their_fields() {
    let r = CreateReply::new()
        .content("hello".to_string())
        .embed(embed("e1"))
        .embed(embed("e2"))
        .attachment(attachment("a1"))
        .ephemeral(true)
        .components(vec![row("c1")])
        .allowed_mentions(mentions("m1"))
        .reply(true);
    assert_eq!(r.content.as_deref(), Some("hello"));
    assert_eq!(r.embeds.len(), 2);
    assert_eq!(r.embeds[0].payload, "e1");
    assert_eq!(r.embeds[1].payload, "e2");
    assert_eq!(r.attachments.len(), 1);
    assert_eq!(r.ephemeral, Some(true));
    assert_eq!(r.components.as_ref().unwrap()[0].payload, "c1");
    assert_eq!(r.allowed_mentions.as_ref().unwrap().payload, "m1");
    assert!(r.reply);
}

#[test]
fn components_overwrite_previous_components() {
    let r = CreateReply::new()
        .components(vec![row("old1"), row("old2")])
        .components(vec![row("new")]);
    let rows = r.components.unwrap();
    assert_eq!(rows.len(), 1);
    assert_eq!(rows[0].payload, "new");
}

#[test]
fn initial_response_defaults_unset_ephemeral_to_false() {
    let f = CreateReply::new()
        .content("hi".to_string())
        .to_slash_initial_response();
    assert_eq!(f.content.as_deref(), Some("hi"));
    assert!(!f.ephemeral);
}

#[test]
fn initial_response_keeps_every_payload() {
    let f = CreateReply::new()
        .content("hi".to_string())
        .embed(embed("e"))
        .attachment(attachment("a"))
        .ephemeral(true)
        .components(vec![row("c")])
        .allowed_mentions(mentions("m"))
        .reply(true)
        .to_slash_initial_response();
    assert_eq!(f.content.as_deref(), Some("hi"));
    assert_eq!(f.embeds[0].payload, "e");
    assert_eq!(f.attachments[0].payload, "a");
    assert!(f.ephemeral);
    assert_eq!(f.components.unwrap()[0].payload, "c");
    assert_eq!(f.allowed_mentions.unwrap().payload, "m");
}

#[test]
fn followup_response_mirrors_the_builder() {
    let f = CreateReply::new()
        .content("later".to_string())
        .embed(embed("e"))
        .ephemeral(false)
        .to_slash_followup_response();
    assert_eq!(f.content.as_deref(), Some("later"));
    assert_eq!(f.embeds.len(), 1);
    assert!(!f.ephemeral);
}

#[test]
fn initial_response_edit_drops_attachments_and_ephemerality() {
    let f = CreateReply::new()
        .content("edited".to_string())
        .attachment(attachment("a"))
        .ephemeral(true)
        .components(vec![row("c")])
        .to_slash_initial_response_edit();
    assert_eq!(f.content.as_deref(), Some("edited"));
    assert_eq!(f.components.unwrap()[0].payload, "c");
    // The edit payload shape carries no attachments and no ephemeral flag.
}

#[test]
fn prefix_edit_keeps_attachments() {
    let f = CreateReply::new()
        .attachment(attachment("a1"))
        .attachment(attachment("a2"))
        .to_prefix_edit();
    assert_eq!(f.attachments.len(), 2);
    assert_eq!(f.attachments[1].payload, "a2");
}

#[test]
fn prefix_message_references_the_invocation_only_when_replying() {
    let invocation = Message { id: 99 };
    let m = CreateReply::new()
        .reply(true)
        .to_prefix(&invocation);
    assert_eq!(m.reference_message, Some(Message { id: 99 }));

    let m = CreateReply::new().to_prefix(&invocation);
    assert_eq!(m.reference_message, None);
}

#[test]
fn complete_from_ctx_fills_only_unset_fields() {
    let completed = CreateReply::new().complete_from_ctx(true, Some(mentions("framework")));
    assert_eq!(completed.ephemeral, Some(true));
    assert_eq!(completed.allowed_mentions.unwrap().payload, "framework");

    let completed = CreateReply::new()
        .ephemeral(false)
        .allowed_mentions(mentions("own"))
        .complete_from_ctx(true, Some(mentions("framework")));
    assert_eq!(completed.ephemeral, Some(false));
    assert_eq!(completed.allowed_mentions.unwrap().payload, "own");
}
