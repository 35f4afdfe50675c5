use vstd::prelude::*;
use crate::decimal::{decimal, decimal_u64, is_digit, lemma_decimal_digits, lemma_decimal_injective};
use twilight_embed_builder::image_source::ImageSourceUrlError;
use twilight_embed_builder::{EmbedAuthorBuilder, EmbedBuilder, EmbedError, EmbedFooterBuilder, ImageSource};
use twilight_model::channel::embed::Embed;
use twilight_model::util::Timestamp;

verus! {

#[verifier::external_type_specification]
#[verifier::external_body]
pub struct ExEmbedError(EmbedError);

#[verifier::external_type_specification]
#[verifier::external_body]
pub struct ExImageSource(ImageSource);

#[verifier::external_type_specification]
#[verifier::external_body]
pub struct ExImageSourceUrlError(ImageSourceUrlError);

#[verifier::external_type_specification]
#[verifier::external_body]
pub struct ExEmbed(Embed);

#[verifier::external_type_specification]
#[verifier::external_body]
pub struct ExTimestamp(Timestamp);

/// Most characters of an embed title or author name.
pub const TITLE_LIMIT: usize = 256;

/// Most characters of an embed description.
pub const DESCRIPTION_LIMIT: usize = 4096;

/// Most characters of an embed footer.
pub const FOOTER_LIMIT: usize = 2048;

/// Most characters of the texts of an embed together.
pub const TOTAL_LIMIT: usize = 6000;

/// Largest embed color.
pub const COLOR_MAXIMUM: u32 = 0xffffff;

/// What has been set on an embed under construction.
pub struct EmbedRecord {
    pub color: Option<u32>,
    pub title: Option<Seq<char>>,
    /// Author name and icon address.
    pub author: Option<(Seq<char>, Seq<char>)>,
    pub description: Option<Seq<char>>,
    pub timestamp: Option<Timestamp>,
    pub footer: Option<Seq<char>>,
}

/// An embed with nothing set.
pub open spec fn empty_record() -> EmbedRecord {
    EmbedRecord {
        color: None,
        title: None,
        author: None,
        description: None,
        timestamp: None,
        footer: None,
    }
}

/// Characters of an optional text, none when absent.
pub open spec fn text_len(t: Option<Seq<char>>) -> int {
    match t {
        Some(s) => s.len() as int,
        None => 0,
    }
}

/// Whether an optional text is present and empty or longer than `limit`.
pub open spec fn text_fits(t: Option<Seq<char>>, limit: usize) -> bool {
    t matches Some(s) ==> 0 < s.len() <= limit
}

/// Whether the embed builder accepts what was set: a color other than 0 and
/// within RGB, and title, author name, description and footer each non-empty
/// and within its limit, all of them together within [`TOTAL_LIMIT`].
pub open spec fn embed_accepted(r: EmbedRecord) -> bool {
    let author_name = match r.author {
        Some(a) => Some(a.0),
        None => None,
    };
    &&& (r.color matches Some(c) ==> 0 < c <= COLOR_MAXIMUM)
    &&& text_fits(r.title, TITLE_LIMIT)
    &&& text_fits(author_name, TITLE_LIMIT)
    &&& text_fits(r.description, DESCRIPTION_LIMIT)
    &&& text_fits(r.footer, FOOTER_LIMIT)
    &&& text_len(r.title) + text_len(author_name) + text_len(r.description) + text_len(r.footer)
        <= TOTAL_LIMIT
}

/// An image address accepted for an embed, with the address it was made from.
pub struct IconSource {
    source: ImageSource,
    url: String,
}

/// Calls `ImageSource::url`, which accepts an address exactly when it starts
/// with `https:` or `http:`; the accepted source is kept beside the address
/// it was made from.
#[verifier::external_body]
fn image_source_url(url: String) -> (r: Result<IconSource, ImageSourceUrlError>)
    ensures
        r is Ok <==> ("https:"@.is_prefix_of(url@) || "http:"@.is_prefix_of(url@)),
        r matches Ok(s) ==> s.url@ == url@,
{
    match ImageSource::url(url.clone()) {
        Ok(source) => Ok(IconSource { source, url }),
        Err(e) => Err(e),
    }
}

impl IconSource {
    /// The address of the image.
    pub closed spec fn url(&self) -> Seq<char> {
        self.url@
    }

    /// An image source for `url`; `None` unless it is an `https:` or `http:`
    /// address.
    pub fn from_url(url: String) -> (r: Option<IconSource>)
        ensures
            r is Some <==> ("https:"@.is_prefix_of(url@) || "http:"@.is_prefix_of(url@)),
            r matches Some(s) ==> s.url() == url@,
    {
        match image_source_url(url) {
            Ok(source) => Some(source),
            Err(_) => None,
        }
    }

    /// The address of the image, as text.
    pub fn url_text(&self) -> (r: &str)
        ensures
            r@ == self.url(),
    {
        self.url.as_str()
    }
}

/// Address of a user's animated avatar image on the Discord CDN.
pub open spec fn avatar_url(user_id: u64, avatar_hash: Seq<char>) -> Seq<char> {
    "https://cdn.discordapp.com/avatars/"@ + decimal(user_id as nat) + "/a_"@ + avatar_hash
        + ".webp?size=256"@
}

/// Avatar addresses tell users and avatars apart: two addresses are the
/// same only for the same user id and the same avatar hash.
pub proof fn law_avatar_url_injective(a: u64, hash_a: Seq<char>, b: u64, hash_b: Seq<char>)
    requires
        avatar_url(a, hash_a) == avatar_url(b, hash_b),
    ensures
        a == b,
        hash_a == hash_b,
{
    let prefix = "https://cdn.discordapp.com/avatars/"@;
    let middle = "/a_"@;
    let suffix = ".webp?size=256"@;
    reveal_strlit("https://cdn.discordapp.com/avatars/");
    reveal_strlit("/a_");
    reveal_strlit(".webp?size=256");
    let da = decimal(a as nat);
    let db = decimal(b as nat);
    lemma_decimal_digits(a as nat);
    lemma_decimal_digits(b as nat);
    let ua = avatar_url(a, hash_a);
    let p = prefix.len() as int;
    assert(ua =~= prefix + da + middle + hash_a + suffix);
    assert(avatar_url(b, hash_b) =~= prefix + db + middle + hash_b + suffix);
    assert forall|i: int| 0 <= i < da.len() implies ua[p + i] == da[i] by {}
    assert forall|i: int| 0 <= i < db.len() implies ua[p + i] == db[i] by {}
    assert(ua[p + da.len()] == '/');
    assert(ua[p + db.len()] == '/');
    if da.len() < db.len() {
        assert(is_digit(db[da.len() as int]));
    } else if db.len() < da.len() {
        assert(is_digit(da[db.len() as int]));
    }
    assert(da =~= db);
    lemma_decimal_injective(a as nat, b as nat);
    let start = p + da.len() + 3;
    assert(hash_a =~= ua.subrange(start, ua.len() - suffix.len()));
    assert(hash_b =~= ua.subrange(start, ua.len() - suffix.len()));
}

/// The avatar address of a user as text.
pub fn avatar_url_text(user_id: u64, avatar_hash: &str) -> (r: String)
    ensures
        r@ == avatar_url(user_id, avatar_hash@),
{
    proof {
        reveal_strlit("https://cdn.discordapp.com/avatars/");
        reveal_strlit("/a_");
        reveal_strlit(".webp?size=256");
    }
    let mut url = String::from_str("https://cdn.discordapp.com/avatars/");
    let id = decimal_u64(user_id);
    url.append(id.as_str());
    url.append("/a_");
    url.append(avatar_hash);
    url.append(".webp?size=256");
    url
}

/// The avatar image of a user, for an embed author icon. The address is a
/// secure one, so it is always accepted.
pub fn get_avatar_url(user_id: u64, avatar_hash: &str) -> (r: Option<IconSource>)
    ensures
        r matches Some(s) && s.url() == avatar_url(user_id, avatar_hash@),
{
    let url = avatar_url_text(user_id, avatar_hash);
    proof {
        reveal_strlit("https:");
        reveal_strlit("https://cdn.discordapp.com/avatars/");
        assert("https:"@ =~= url@.subrange(0, 6));
    }
    IconSource::from_url(url)
}

/// The whole text of an optional string.
pub open spec fn opt_text(s: Option<String>) -> Option<Seq<char>> {
    match s {
        Some(t) => Some(t@),
        None => None,
    }
}

/// An embed under construction: the values set on it so far.
pub struct EmbedDraft {
    color: Option<u32>,
    title: Option<String>,
    author: Option<(String, IconSource)>,
    description: Option<String>,
    timestamp: Option<Timestamp>,
    footer: Option<String>,
}

/// An embed that passed the builder's checks, with the draft it was made
/// from.
pub struct EmbedPost {
    embed: Embed,
    draft: EmbedDraft,
}

/// Makes the embed of a draft with `EmbedBuilder`: one builder call for each
/// value the draft holds (`color`, `title`, `author` with
/// `EmbedAuthorBuilder::new` and `icon_url`, `description`, `timestamp`,
/// `footer` with `EmbedFooterBuilder::new`), then `EmbedBuilder::build`,
/// which succeeds exactly when [`embed_accepted`] holds of those values. The
/// draft is kept beside the embed; the embed's own fields are opaque here.
#[verifier::external_body]
fn build_embed(d: EmbedDraft) -> (r: Result<EmbedPost, EmbedError>)
    ensures
        r is Ok <==> embed_accepted(d.record()),
        r matches Ok(p) ==> p.draft == d,
{
    let mut b = EmbedBuilder::new();
    if let Some(c) = d.color { b = b.color(c); }
    if let Some(t) = &d.title { b = b.title(t); }
    if let Some((n, i)) = &d.author { b = b.author(EmbedAuthorBuilder::new(n.clone()).icon_url(i.source.clone())); }
    if let Some(t) = &d.description { b = b.description(t); }
    if let Some(t) = d.timestamp { b = b.timestamp(t); }
    if let Some(t) = &d.footer { b = b.footer(EmbedFooterBuilder::new(t)); }
    b.build().map(|embed| EmbedPost { embed, draft: d })
}

/// Calls `EmbedError`'s `Display`, the builder's own description of why it
/// refused an embed, such as `the title is empty`. Nothing is stated of the
/// text.
#[verifier::external_body]
pub(crate) fn embed_error_text(e: &EmbedError) -> String {
    e.to_string()
}

impl EmbedDraft {
    /// What has been set on this embed.
    pub closed spec fn record(&self) -> EmbedRecord {
        EmbedRecord {
            color: self.color,
            title: opt_text(self.title),
            author: match self.author {
                Some((n, i)) => Some((n@, i.url())),
                None => None,
            },
            description: opt_text(self.description),
            timestamp: self.timestamp,
            footer: opt_text(self.footer),
        }
    }

    /// An embed with nothing set.
    pub fn new() -> (r: Self)
        ensures
            r.record() == empty_record(),
    {
        EmbedDraft { color: None, title: None, author: None, description: None, timestamp: None, footer: None }
    }

    /// Sets the color.
    pub fn color(self, color: u32) -> (r: Self)
        ensures
            r.record() == (EmbedRecord { color: Some(color), ..self.record() }),
    {
        EmbedDraft {
            color: Some(color),
            title: self.title,
            author: self.author,
            description: self.description,
            timestamp: self.timestamp,
            footer: self.footer,
        }
    }

    /// Sets the title.
    pub fn title(self, title: String) -> (r: Self)
        ensures
            r.record() == (EmbedRecord { title: Some(title@), ..self.record() }),
    {
        EmbedDraft {
            color: self.color,
            title: Some(title),
            author: self.author,
            description: self.description,
            timestamp: self.timestamp,
            footer: self.footer,
        }
    }

    /// Sets the author's name and icon.
    pub fn author(self, name: String, icon: IconSource) -> (r: Self)
        ensures
            r.record() == (EmbedRecord { author: Some((name@, icon.url())), ..self.record() }),
    {
        EmbedDraft {
            color: self.color,
            title: self.title,
            author: Some((name, icon)),
            description: self.description,
            timestamp: self.timestamp,
            footer: self.footer,
        }
    }

    /// Sets the description.
    pub fn description(self, description: String) -> (r: Self)
        ensures
            r.record() == (EmbedRecord { description: Some(description@), ..self.record() }),
    {
        EmbedDraft {
            color: self.color,
            title: self.title,
            author: self.author,
            description: Some(description),
            timestamp: self.timestamp,
            footer: self.footer,
        }
    }

    /// Sets the timestamp.
    pub fn timestamp(self, timestamp: Timestamp) -> (r: Self)
        ensures
            r.record() == (EmbedRecord { timestamp: Some(timestamp), ..self.record() }),
    {
        EmbedDraft {
            color: self.color,
            title: self.title,
            author: self.author,
            description: self.description,
            timestamp: Some(timestamp),
            footer: self.footer,
        }
    }

    /// Sets the footer text.
    pub fn footer(self, text: String) -> (r: Self)
        ensures
            r.record() == (EmbedRecord { footer: Some(text@), ..self.record() }),
    {
        EmbedDraft {
            color: self.color,
            title: self.title,
            author: self.author,
            description: self.description,
            timestamp: self.timestamp,
            footer: Some(text),
        }
    }

    /// Checks what was set and makes the embed; fails exactly when the
    /// record is not accepted.
    pub fn build(self) -> (r: Result<EmbedPost, EmbedError>)
        ensures
            r is Ok <==> embed_accepted(self.record()),
            r matches Ok(p) ==> p.record() == self.record(),
    {
        build_embed(self)
    }
}

impl EmbedPost {
    /// What was set on the embed.
    pub closed spec fn record(&self) -> EmbedRecord {
        self.draft.record()
    }

    /// The embed that was built.
    pub closed spec fn built(&self) -> Embed {
        self.embed
    }

    /// The embed to post.
    pub fn embed(&self) -> (r: &Embed)
        ensures
            *r == self.built(),
    {
        &self.embed
    }
}

} // verus!
