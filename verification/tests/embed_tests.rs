use gexbot::embed::{avatar_url_text, get_avatar_url, EmbedDraft, IconSource};

#[test]
fn avatar_address() {
    assert_eq!(
        avatar_url_text(42, "abc123"),
        "https://cdn.discordapp.com/avatars/42/a_abc123.webp?size=256"
    );
}

#[test]
fn avatar_source_is_accepted() {
    let icon = get_avatar_url(42, "abc123").expect("secure addresses are accepted");
    assert_eq!(icon.url_text(), "https://cdn.discordapp.com/avatars/42/a_abc123.webp?size=256");
    let post = EmbedDraft::new()
        .author("alice".to_string(), icon)
        .build()
        .expect("a named author is accepted");
    let author = post.embed().author.clone().expect("author set");
    assert_eq!(author.name, "alice");
    assert_eq!(
        author.icon_url.as_deref(),
        Some("https://cdn.discordapp.com/avatars/42/a_abc123.webp?size=256")
    );
}

#[test]
fn builder_checks_embed() {
    let ok = EmbedDraft::new().color(0xffd700).title("at #general".to_string()).description("x".to_string()).build();
    let post = ok.expect("a valid embed");
    let embed = post.embed();
    assert_eq!(embed.color, Some(0xffd700));
    assert_eq!(embed.title.as_deref(), Some("at #general"));
    assert_eq!(embed.description.as_deref(), Some("x"));
    assert!(embed.author.is_none());
    assert!(embed.footer.is_none());
    assert!(embed.timestamp.is_none());
    assert!(EmbedDraft::new().color(0).build().is_err());
    assert!(EmbedDraft::new().color(0x1000000).build().is_err());
    assert!(EmbedDraft::new().title(String::new()).build().is_err());
    assert!(EmbedDraft::new().description("d".repeat(4097)).build().is_err());
    assert!(EmbedDraft::new().description("d".repeat(4096)).build().is_ok());
    assert!(EmbedDraft::new().footer("f".repeat(2049)).build().is_err());
    assert!(EmbedDraft::new()
        .description("d".repeat(4096))
        .footer("f".repeat(2048))
        .build()
        .is_err());
}

#[test]
fn insecure_icon_is_refused() {
    assert!(IconSource::from_url("ftp://example.com/a.png".to_string()).is_none());
    let icon = IconSource::from_url("http://example.com/a.png".to_string()).expect("http is accepted");
    assert_eq!(icon.url_text(), "http://example.com/a.png");
}


#[test]
fn avatar_addresses_differ_by_user_and_hash() {
    assert_ne!(avatar_url_text(42, "abc"), avatar_url_text(4, "abc"));
    assert_ne!(avatar_url_text(42, "abc"), avatar_url_text(42, "abd"));
    assert_ne!(avatar_url_text(4, "2abc"), avatar_url_text(42, "abc"));
}
