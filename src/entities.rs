//! What a post text holds besides its words, and how a post refers to others.
use vstd::prelude::*;
use vstd::string::*;
use crate::wire::{
    encode_list, field, fields_follow, find_field, is_list_wire, keys_are, lemma_find_keyed,
    list_view, lookup, opt_rule, push_field, quoted_of, read_quoted, read_text, text_is, text_of,
    DecodeError, FieldRule, WireCodec, WireField, WireValue,
};

verus! {

/// How a post refers to another.
#[derive(PartialEq, Eq, Structural, Clone, Copy, Debug)]
pub enum PostReferenceType {
    Unspecified,
    Reply,
    Quote,
    Repost,
}

impl View for PostReferenceType {
    type V = PostReferenceType;

    open spec fn view(&self) -> PostReferenceType {
        *self
    }
}

/// The chain's name of each reference type.
pub open spec fn post_reference_type_name(r: PostReferenceType) -> Seq<char> {
    match r {
        PostReferenceType::Unspecified => "POST_REFERENCE_TYPE_UNSPECIFIED"@,
        PostReferenceType::Reply => "POST_REFERENCE_TYPE_REPLY"@,
        PostReferenceType::Quote => "POST_REFERENCE_TYPE_QUOTE"@,
        PostReferenceType::Repost => "POST_REFERENCE_TYPE_REPOST"@,
    }
}

/// What decoding a wire value as a reference type gives: a name outside the
/// known set is an unknown discriminator.
pub open spec fn decode_post_reference_type_spec(w: WireValue) -> Result<
    PostReferenceType,
    DecodeError,
> {
    match w {
        WireValue::Text(t) => if t@ == post_reference_type_name(PostReferenceType::Unspecified) {
            Ok(PostReferenceType::Unspecified)
        } else if t@ == post_reference_type_name(PostReferenceType::Reply) {
            Ok(PostReferenceType::Reply)
        } else if t@ == post_reference_type_name(PostReferenceType::Quote) {
            Ok(PostReferenceType::Quote)
        } else if t@ == post_reference_type_name(PostReferenceType::Repost) {
            Ok(PostReferenceType::Repost)
        } else {
            Err(DecodeError::UnknownDiscriminator)
        },
        _ => Err(DecodeError::MalformedValue),
    }
}

/// Decoding the name of a reference type gives the type back.
pub proof fn lemma_post_reference_type_round_trip(m: PostReferenceType, w: WireValue)
    requires
        w matches WireValue::Text(t) && t@ == post_reference_type_name(m),
    ensures
        decode_post_reference_type_spec(w) == Ok::<PostReferenceType, DecodeError>(m),
{
    reveal_strlit("POST_REFERENCE_TYPE_UNSPECIFIED");
    reveal_strlit("POST_REFERENCE_TYPE_REPLY");
    reveal_strlit("POST_REFERENCE_TYPE_QUOTE");
    reveal_strlit("POST_REFERENCE_TYPE_REPOST");
    let u = post_reference_type_name(PostReferenceType::Unspecified);
    let r = post_reference_type_name(PostReferenceType::Reply);
    let q = post_reference_type_name(PostReferenceType::Quote);
    let p = post_reference_type_name(PostReferenceType::Repost);
    assert(u[20] != r[20] && u[20] != q[20] && u[20] != p[20] && r[20] != q[20] && q[20] != p[20]);
    assert(r[23] != p[23]);
}

impl WireCodec for PostReferenceType {
    open spec fn decoder() -> spec_fn(WireValue) -> Result<PostReferenceType, DecodeError> {
        |w: WireValue| decode_post_reference_type_spec(w)
    }

    open spec fn is_wire(m: PostReferenceType, w: WireValue) -> bool {
        w matches WireValue::Text(t) && t@ == post_reference_type_name(m)
    }

    fn encode(&self) -> (w: WireValue) {
        let name = match self {
            PostReferenceType::Unspecified => "POST_REFERENCE_TYPE_UNSPECIFIED",
            PostReferenceType::Reply => "POST_REFERENCE_TYPE_REPLY",
            PostReferenceType::Quote => "POST_REFERENCE_TYPE_QUOTE",
            PostReferenceType::Repost => "POST_REFERENCE_TYPE_REPOST",
        };
        let w = WireValue::Text(String::from_str(name));
        proof {
            lemma_post_reference_type_round_trip(*self, w);
        }
        w
    }

    fn decode(w: &WireValue) -> (r: Result<PostReferenceType, DecodeError>) {
        match w {
            WireValue::Text(t) => if text_is(t, "POST_REFERENCE_TYPE_UNSPECIFIED") {
                Ok(PostReferenceType::Unspecified)
            } else if text_is(t, "POST_REFERENCE_TYPE_REPLY") {
                Ok(PostReferenceType::Reply)
            } else if text_is(t, "POST_REFERENCE_TYPE_QUOTE") {
                Ok(PostReferenceType::Quote)
            } else if text_is(t, "POST_REFERENCE_TYPE_REPOST") {
                Ok(PostReferenceType::Repost)
            } else {
                Err(DecodeError::UnknownDiscriminator)
            },
            _ => Err(DecodeError::MalformedValue),
        }
    }

    proof fn lemma_wire_round_trip(m: PostReferenceType, w: WireValue) {
        lemma_post_reference_type_round_trip(m, w);
    }
}

/// A hashtag or mention inside a post text, by its character span.
#[derive(PartialEq, Eq, Debug)]
pub struct TextTag {
    pub start: u64,
    pub end: u64,
    pub tag: String,
}

/// The mathematical value of a [`TextTag`].
pub struct TextTagModel {
    pub start: u64,
    pub end: u64,
    pub tag: Seq<char>,
}

impl View for TextTag {
    type V = TextTagModel;

    open spec fn view(&self) -> TextTagModel {
        TextTagModel {
            start: self.start,
            end: self.end,
            tag: self.tag@,
        }
    }
}

/// The keys of a a hashtag or mention inside a post text, by its character span, in wire order.
pub open spec fn text_tag_keys() -> Seq<Seq<char>> {
    seq!["start"@, "end"@, "tag"@]
}

/// What decoding a wire value as a [`TextTag`] gives.
pub open spec fn decode_text_tag_spec(w: WireValue) -> Result<TextTagModel, DecodeError> {
    match w {
        WireValue::Object(fs) => {
            let start = quoted_of(find_field(fs@, "start"@));
            let end = quoted_of(find_field(fs@, "end"@));
            let tag = text_of(find_field(fs@, "tag"@));
            if start is Err {
                Err(start->Err_0)
            } else if end is Err {
                Err(end->Err_0)
            } else if tag is Err {
                Err(tag->Err_0)
            } else {
                Ok(TextTagModel { start: start->Ok_0, end: end->Ok_0, tag: tag->Ok_0 })
            }
        },
        _ => Err(DecodeError::MalformedValue),
    }
}

/// The single wire shape of a [`TextTag`].
pub open spec fn is_text_tag_wire(m: TextTagModel, w: WireValue) -> bool {
    &&& w matches WireValue::Object(fs)
    &&& keys_are(fs@, text_tag_keys())
    &&& fs@[0].value == WireValue::Quoted(m.start)
    &&& fs@[1].value == WireValue::Quoted(m.end)
    &&& fs@[2].value matches WireValue::Text(s) && s@ == m.tag
}

/// Decoding the wire shape of a [`TextTag`] gives it back.
pub proof fn lemma_text_tag_round_trip(m: TextTagModel, w: WireValue)
    requires
        is_text_tag_wire(m, w),
    ensures
        decode_text_tag_spec(w) == Ok::<TextTagModel, DecodeError>(m),
{
    reveal_strlit("start");
    reveal_strlit("end");
    reveal_strlit("tag");
    let ks = text_tag_keys();
    let fs = w->Object_0@;
    assert(ks[0][0] != ks[1][0]);
    assert(ks[0][0] != ks[2][0]);
    assert(ks[1][0] != ks[2][0]);
    lemma_find_keyed(fs, ks, 0);
    lemma_find_keyed(fs, ks, 1);
    lemma_find_keyed(fs, ks, 2);
}

impl WireCodec for TextTag {
    open spec fn decoder() -> spec_fn(WireValue) -> Result<TextTagModel, DecodeError> {
        |w: WireValue| decode_text_tag_spec(w)
    }

    open spec fn is_wire(m: TextTagModel, w: WireValue) -> bool {
        is_text_tag_wire(m, w)
    }

    fn encode(&self) -> (w: WireValue) {
        let mut fs: Vec<WireField> = Vec::new();
        fs.push(field("start", WireValue::Quoted(self.start)));
        fs.push(field("end", WireValue::Quoted(self.end)));
        fs.push(field("tag", WireValue::Text(self.tag.clone())));
        let w = WireValue::Object(fs);
        proof {
            assert(keys_are(fs@, text_tag_keys()));
            lemma_text_tag_round_trip(self@, w);
        }
        w
    }

    fn decode(w: &WireValue) -> (r: Result<TextTag, DecodeError>) {
        let fs = match w {
            WireValue::Object(fs) => fs,
            _ => return Err(DecodeError::MalformedValue),
        };
        let start = match read_quoted(fs, "start") {
            Ok(v) => v,
            Err(e) => return Err(e),
        };
        let end = match read_quoted(fs, "end") {
            Ok(v) => v,
            Err(e) => return Err(e),
        };
        let tag = match read_text(fs, "tag") {
            Ok(v) => v,
            Err(e) => return Err(e),
        };
        Ok(TextTag { start, end, tag })
    }

    proof fn lemma_wire_round_trip(m: TextTagModel, w: WireValue) {
        lemma_text_tag_round_trip(m, w);
    }
}

/// A link inside a post text, by its character span.
#[derive(PartialEq, Eq, Debug)]
pub struct Url {
    pub start: u64,
    pub end: u64,
    pub url: String,
    pub display_url: String,
}

/// The mathematical value of a [`Url`].
pub struct UrlModel {
    pub start: u64,
    pub end: u64,
    pub url: Seq<char>,
    pub display_url: Seq<char>,
}

impl View for Url {
    type V = UrlModel;

    open spec fn view(&self) -> UrlModel {
        UrlModel {
            start: self.start,
            end: self.end,
            url: self.url@,
            display_url: self.display_url@,
        }
    }
}

/// The keys of a a link inside a post text, by its character span, in wire order.
pub open spec fn url_keys() -> Seq<Seq<char>> {
    seq!["start"@, "end"@, "url"@, "display_url"@]
}

/// What decoding a wire value as a [`Url`] gives.
pub open spec fn decode_url_spec(w: WireValue) -> Result<UrlModel, DecodeError> {
    match w {
        WireValue::Object(fs) => {
            let start = quoted_of(find_field(fs@, "start"@));
            let end = quoted_of(find_field(fs@, "end"@));
            let url = text_of(find_field(fs@, "url"@));
            let display_url = text_of(find_field(fs@, "display_url"@));
            if start is Err {
                Err(start->Err_0)
            } else if end is Err {
                Err(end->Err_0)
            } else if url is Err {
                Err(url->Err_0)
            } else if display_url is Err {
                Err(display_url->Err_0)
            } else {
                Ok(
                    UrlModel {
                        start: start->Ok_0,
                        end: end->Ok_0,
                        url: url->Ok_0,
                        display_url: display_url->Ok_0,
                    },
                )
            }
        },
        _ => Err(DecodeError::MalformedValue),
    }
}

/// The single wire shape of a [`Url`].
pub open spec fn is_url_wire(m: UrlModel, w: WireValue) -> bool {
    &&& w matches WireValue::Object(fs)
    &&& keys_are(fs@, url_keys())
    &&& fs@[0].value == WireValue::Quoted(m.start)
    &&& fs@[1].value == WireValue::Quoted(m.end)
    &&& fs@[2].value matches WireValue::Text(s) && s@ == m.url
    &&& fs@[3].value matches WireValue::Text(s) && s@ == m.display_url
}

/// Decoding the wire shape of a [`Url`] gives it back.
pub proof fn lemma_url_round_trip(m: UrlModel, w: WireValue)
    requires
        is_url_wire(m, w),
    ensures
        decode_url_spec(w) == Ok::<UrlModel, DecodeError>(m),
{
    reveal_strlit("start");
    reveal_strlit("end");
    reveal_strlit("url");
    reveal_strlit("display_url");
    let ks = url_keys();
    let fs = w->Object_0@;
    assert(ks[0][0] != ks[1][0]);
    assert(ks[0][0] != ks[2][0]);
    assert(ks[0][0] != ks[3][0]);
    assert(ks[1][0] != ks[2][0]);
    assert(ks[1][0] != ks[3][0]);
    assert(ks[2][0] != ks[3][0]);
    lemma_find_keyed(fs, ks, 0);
    lemma_find_keyed(fs, ks, 1);
    lemma_find_keyed(fs, ks, 2);
    lemma_find_keyed(fs, ks, 3);
}

impl WireCodec for Url {
    open spec fn decoder() -> spec_fn(WireValue) -> Result<UrlModel, DecodeError> {
        |w: WireValue| decode_url_spec(w)
    }

    open spec fn is_wire(m: UrlModel, w: WireValue) -> bool {
        is_url_wire(m, w)
    }

    fn encode(&self) -> (w: WireValue) {
        let mut fs: Vec<WireField> = Vec::new();
        fs.push(field("start", WireValue::Quoted(self.start)));
        fs.push(field("end", WireValue::Quoted(self.end)));
        fs.push(field("url", WireValue::Text(self.url.clone())));
        fs.push(field("display_url", WireValue::Text(self.display_url.clone())));
        let w = WireValue::Object(fs);
        proof {
            assert(keys_are(fs@, url_keys()));
            lemma_url_round_trip(self@, w);
        }
        w
    }

    fn decode(w: &WireValue) -> (r: Result<Url, DecodeError>) {
        let fs = match w {
            WireValue::Object(fs) => fs,
            _ => return Err(DecodeError::MalformedValue),
        };
        let start = match read_quoted(fs, "start") {
            Ok(v) => v,
            Err(e) => return Err(e),
        };
        let end = match read_quoted(fs, "end") {
            Ok(v) => v,
            Err(e) => return Err(e),
        };
        let url = match read_text(fs, "url") {
            Ok(v) => v,
            Err(e) => return Err(e),
        };
        let display_url = match read_text(fs, "display_url") {
            Ok(v) => v,
            Err(e) => return Err(e),
        };
        Ok(Url { start, end, url, display_url })
    }

    proof fn lemma_wire_round_trip(m: UrlModel, w: WireValue) {
        lemma_url_round_trip(m, w);
    }
}

/// A reference from a post to another post.
#[derive(PartialEq, Eq, Debug)]
pub struct PostReference {
    pub reference_type: PostReferenceType,
    pub post_id: u64,
    pub position: u64,
}

/// The mathematical value of a [`PostReference`].
pub struct PostReferenceModel {
    pub reference_type: PostReferenceType,
    pub post_id: u64,
    pub position: u64,
}

impl View for PostReference {
    type V = PostReferenceModel;

    open spec fn view(&self) -> PostReferenceModel {
        PostReferenceModel {
            reference_type: self.reference_type@,
            post_id: self.post_id,
            position: self.position,
        }
    }
}

/// The keys of a a reference from a post to another post, in wire order.
pub open spec fn post_reference_keys() -> Seq<Seq<char>> {
    seq!["type"@, "post_id"@, "position"@]
}

/// What decoding a wire value as a [`PostReference`] gives.
pub open spec fn decode_post_reference_spec(w: WireValue) -> Result<PostReferenceModel, DecodeError> {
    match w {
        WireValue::Object(fs) => {
            let reference_type = match find_field(fs@, "type"@) {
                None => Err(DecodeError::MissingField),
                Some(x) => (PostReferenceType::decoder())(x),
            };
            let post_id = quoted_of(find_field(fs@, "post_id"@));
            let position = quoted_of(find_field(fs@, "position"@));
            if reference_type is Err {
                Err(reference_type->Err_0)
            } else if post_id is Err {
                Err(post_id->Err_0)
            } else if position is Err {
                Err(position->Err_0)
            } else {
                Ok(
                    PostReferenceModel {
                        reference_type: reference_type->Ok_0,
                        post_id: post_id->Ok_0,
                        position: position->Ok_0,
                    },
                )
            }
        },
        _ => Err(DecodeError::MalformedValue),
    }
}

/// The single wire shape of a [`PostReference`].
pub open spec fn is_post_reference_wire(m: PostReferenceModel, w: WireValue) -> bool {
    &&& w matches WireValue::Object(fs)
    &&& keys_are(fs@, post_reference_keys())
    &&& PostReferenceType::is_wire(m.reference_type, fs@[0].value)
    &&& fs@[1].value == WireValue::Quoted(m.post_id)
    &&& fs@[2].value == WireValue::Quoted(m.position)
}

/// Decoding the wire shape of a [`PostReference`] gives it back.
pub proof fn lemma_post_reference_round_trip(m: PostReferenceModel, w: WireValue)
    requires
        is_post_reference_wire(m, w),
    ensures
        decode_post_reference_spec(w) == Ok::<PostReferenceModel, DecodeError>(m),
{
    reveal_strlit("type");
    reveal_strlit("post_id");
    reveal_strlit("position");
    let ks = post_reference_keys();
    let fs = w->Object_0@;
    assert(ks[0][0] != ks[1][0]);
    assert(ks[0][0] != ks[2][0]);
    assert(ks[1][3] != ks[2][3]);
    lemma_find_keyed(fs, ks, 0);
    PostReferenceType::lemma_wire_round_trip(m.reference_type, fs[0].value);
    lemma_find_keyed(fs, ks, 1);
    lemma_find_keyed(fs, ks, 2);
}

impl WireCodec for PostReference {
    open spec fn decoder() -> spec_fn(WireValue) -> Result<PostReferenceModel, DecodeError> {
        |w: WireValue| decode_post_reference_spec(w)
    }

    open spec fn is_wire(m: PostReferenceModel, w: WireValue) -> bool {
        is_post_reference_wire(m, w)
    }

    fn encode(&self) -> (w: WireValue) {
        let mut fs: Vec<WireField> = Vec::new();
        fs.push(field("type", self.reference_type.encode()));
        fs.push(field("post_id", WireValue::Quoted(self.post_id)));
        fs.push(field("position", WireValue::Quoted(self.position)));
        let w = WireValue::Object(fs);
        proof {
            assert(keys_are(fs@, post_reference_keys()));
            lemma_post_reference_round_trip(self@, w);
        }
        w
    }

    fn decode(w: &WireValue) -> (r: Result<PostReference, DecodeError>) {
        let fs = match w {
            WireValue::Object(fs) => fs,
            _ => return Err(DecodeError::MalformedValue),
        };
        let reference_type = match lookup(fs, "type") {
            None => return Err(DecodeError::MissingField),
            Some(x) => match PostReferenceType::decode(x) {
                Ok(v) => v,
                Err(e) => return Err(e),
            },
        };
        let post_id = match read_quoted(fs, "post_id") {
            Ok(v) => v,
            Err(e) => return Err(e),
        };
        let position = match read_quoted(fs, "position") {
            Ok(v) => v,
            Err(e) => return Err(e),
        };
        Ok(PostReference { reference_type, post_id, position })
    }

    proof fn lemma_wire_round_trip(m: PostReferenceModel, w: WireValue) {
        lemma_post_reference_round_trip(m, w);
    }
}

/// The hashtags, mentions and links inside a post text.
#[derive(PartialEq, Eq, Debug)]
pub struct Entities {
    pub hashtags: Vec<TextTag>,
    pub mentions: Vec<TextTag>,
    pub urls: Vec<Url>,
}

/// The mathematical value of [`Entities`].
pub struct EntitiesModel {
    pub hashtags: Seq<TextTagModel>,
    pub mentions: Seq<TextTagModel>,
    pub urls: Seq<UrlModel>,
}

impl View for Entities {
    type V = EntitiesModel;

    open spec fn view(&self) -> EntitiesModel {
        EntitiesModel {
            hashtags: list_view(self.hashtags@),
            mentions: list_view(self.mentions@),
            urls: list_view(self.urls@),
        }
    }
}

/// The single wire shape of entities: the three lists, in order.
pub open spec fn is_entities_wire(m: EntitiesModel, w: WireValue) -> bool {
    &&& w matches WireValue::Object(fs)
    &&& keys_are(fs@, seq!["hashtags"@, "mentions"@, "urls"@])
    &&& is_list_wire::<TextTag>(m.hashtags, fs@[0].value)
    &&& is_list_wire::<TextTag>(m.mentions, fs@[1].value)
    &&& is_list_wire::<Url>(m.urls, fs@[2].value)
}

impl Entities {
    /// The wire shape of these entities.
    pub fn encode(&self) -> (w: WireValue)
        ensures
            is_entities_wire(self@, w),
    {
        let mut fs: Vec<WireField> = Vec::new();
        fs.push(field("hashtags", encode_list(&self.hashtags)));
        fs.push(field("mentions", encode_list(&self.mentions)));
        fs.push(field("urls", encode_list(&self.urls)));
        WireValue::Object(fs)
    }
}

/// An optional entities field.
pub open spec fn opt_entities_rule(key: Seq<char>, o: Option<Entities>) -> Seq<FieldRule> {
    opt_rule(
        match o {
            Some(e) => Some((key, |w: WireValue| is_entities_wire(e@, w))),
            None => None,
        },
    )
}

/// Appends an optional entities field when it is set.
pub fn push_opt_entities(
    fs: &mut Vec<WireField>,
    Ghost(rules): Ghost<Seq<FieldRule>>,
    key: &str,
    o: &Option<Entities>,
)
    requires
        fields_follow(old(fs)@, rules),
    ensures
        fields_follow(final(fs)@, rules + opt_entities_rule(key@, *o)),
{
    match o {
        Some(e) => {
            let ghost rule: FieldRule = (key@, |w: WireValue| is_entities_wire(e@, w));
            push_field(fs, Ghost(rules), field(key, e.encode()), Ghost(rule));
            assert(rules.push(rule) =~= rules + opt_entities_rule(key@, *o));
        },
        None => {
            assert(rules =~= rules + opt_entities_rule(key@, *o));
        },
    }
}

} // verus!
