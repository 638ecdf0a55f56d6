//! The posts module's messages, and who may reply to a post.
use vstd::prelude::*;
use vstd::string::*;
use crate::entities::{
    opt_entities_rule, push_opt_entities, Entities, PostReference, PostReferenceModel,
};
use crate::posts::{
    is_attachment_wire, AttachmentModel, PostAttachment,
};
use crate::wire::{
    encode_list, field, fields_follow, is_list_wire, is_text_field, keys_are,
    lemma_fields_follow_push, list_rule, list_view, number_rule, opt_view, push_field, quoted_rule,
    text_is, text_rule, DecodeError, FieldRule, WireCodec, WireField, WireValue,
};

verus! {

/// Who may reply to a post.
#[derive(PartialEq, Eq, Structural, Clone, Copy, Debug)]
pub enum ReplySetting {
    Unspecified,
    Everyone,
    Followers,
    Mutual,
    Mentions,
}

impl View for ReplySetting {
    type V = ReplySetting;

    open spec fn view(&self) -> ReplySetting {
        *self
    }
}

/// The chain's name of each reply setting.
pub open spec fn reply_setting_name(r: ReplySetting) -> Seq<char> {
    match r {
        ReplySetting::Unspecified => "REPLY_SETTING_UNSPECIFIED"@,
        ReplySetting::Everyone => "REPLY_SETTING_EVERYONE"@,
        ReplySetting::Followers => "REPLY_SETTING_FOLLOWERS"@,
        ReplySetting::Mutual => "REPLY_SETTING_MUTUAL"@,
        ReplySetting::Mentions => "REPLY_SETTING_MENTIONS"@,
    }
}

/// What decoding a wire value as a reply setting gives: a name outside the
/// known set is an unknown discriminator.
pub open spec fn decode_reply_setting_spec(w: WireValue) -> Result<ReplySetting, DecodeError> {
    match w {
        WireValue::Text(t) => if t@ == reply_setting_name(ReplySetting::Unspecified) {
            Ok(ReplySetting::Unspecified)
        } else if t@ == reply_setting_name(ReplySetting::Everyone) {
            Ok(ReplySetting::Everyone)
        } else if t@ == reply_setting_name(ReplySetting::Followers) {
            Ok(ReplySetting::Followers)
        } else if t@ == reply_setting_name(ReplySetting::Mutual) {
            Ok(ReplySetting::Mutual)
        } else if t@ == reply_setting_name(ReplySetting::Mentions) {
            Ok(ReplySetting::Mentions)
        } else {
            Err(DecodeError::UnknownDiscriminator)
        },
        _ => Err(DecodeError::MalformedValue),
    }
}

/// Decoding the name of a reply setting gives the setting back.
pub proof fn lemma_reply_setting_round_trip(m: ReplySetting, w: WireValue)
    requires
        w matches WireValue::Text(t) && t@ == reply_setting_name(m),
    ensures
        decode_reply_setting_spec(w) == Ok::<ReplySetting, DecodeError>(m),
{
    reveal_strlit("REPLY_SETTING_UNSPECIFIED");
    reveal_strlit("REPLY_SETTING_EVERYONE");
    reveal_strlit("REPLY_SETTING_FOLLOWERS");
    reveal_strlit("REPLY_SETTING_MUTUAL");
    reveal_strlit("REPLY_SETTING_MENTIONS");
    let u = reply_setting_name(ReplySetting::Unspecified);
    let e = reply_setting_name(ReplySetting::Everyone);
    let f = reply_setting_name(ReplySetting::Followers);
    let mu = reply_setting_name(ReplySetting::Mutual);
    let me = reply_setting_name(ReplySetting::Mentions);
    assert(u[14] != e[14] && u[14] != f[14] && u[14] != mu[14] && u[14] != me[14]);
    assert(e[14] != f[14] && e[14] != mu[14] && e[14] != me[14]);
    assert(f[14] != mu[14] && f[14] != me[14]);
    assert(mu[15] != me[15]);
}

impl WireCodec for ReplySetting {
    open spec fn decoder() -> spec_fn(WireValue) -> Result<ReplySetting, DecodeError> {
        |w: WireValue| decode_reply_setting_spec(w)
    }

    open spec fn is_wire(m: ReplySetting, w: WireValue) -> bool {
        w matches WireValue::Text(t) && t@ == reply_setting_name(m)
    }

    fn encode(&self) -> (w: WireValue) {
        let name = match self {
            ReplySetting::Unspecified => "REPLY_SETTING_UNSPECIFIED",
            ReplySetting::Everyone => "REPLY_SETTING_EVERYONE",
            ReplySetting::Followers => "REPLY_SETTING_FOLLOWERS",
            ReplySetting::Mutual => "REPLY_SETTING_MUTUAL",
            ReplySetting::Mentions => "REPLY_SETTING_MENTIONS",
        };
        let w = WireValue::Text(String::from_str(name));
        proof {
            lemma_reply_setting_round_trip(*self, w);
        }
        w
    }

    fn decode(w: &WireValue) -> (r: Result<ReplySetting, DecodeError>) {
        match w {
            WireValue::Text(t) => if text_is(t, "REPLY_SETTING_UNSPECIFIED") {
                Ok(ReplySetting::Unspecified)
            } else if text_is(t, "REPLY_SETTING_EVERYONE") {
                Ok(ReplySetting::Everyone)
            } else if text_is(t, "REPLY_SETTING_FOLLOWERS") {
                Ok(ReplySetting::Followers)
            } else if text_is(t, "REPLY_SETTING_MUTUAL") {
                Ok(ReplySetting::Mutual)
            } else if text_is(t, "REPLY_SETTING_MENTIONS") {
                Ok(ReplySetting::Mentions)
            } else {
                Err(DecodeError::UnknownDiscriminator)
            },
            _ => Err(DecodeError::MalformedValue),
        }
    }

    proof fn lemma_wire_round_trip(m: ReplySetting, w: WireValue) {
        lemma_reply_setting_round_trip(m, w);
    }
}

/// A field holding a list of attachments.
pub open spec fn attachments_rule(key: Seq<char>, a: Seq<AttachmentModel>) -> FieldRule {
    (key, |w: WireValue| is_list_wire::<PostAttachment>(a, w))
}

/// The rules of a post creation: an optional field that is unset is left out.
pub open spec fn create_post_rules(
    subspace_id: u64,
    section_id: u32,
    external_id: Option<Seq<char>>,
    text: Option<Seq<char>>,
    entities: Option<Entities>,
    attachments: Option<Seq<AttachmentModel>>,
    author: Seq<char>,
    conversation_id: Option<u64>,
    reply_settings: ReplySetting,
    referenced_posts: Seq<PostReferenceModel>,
) -> Seq<FieldRule> {
    seq![quoted_rule("subspace_id"@, subspace_id), number_rule("section_id"@, section_id as u64)]
        + match external_id {
        Some(t) => seq![text_rule("external_id"@, t)],
        None => Seq::empty(),
    } + match text {
        Some(t) => seq![text_rule("text"@, t)],
        None => Seq::empty(),
    } + opt_entities_rule("entities"@, entities) + match attachments {
        Some(a) => seq![attachments_rule("attachments"@, a)],
        None => Seq::empty(),
    } + seq![text_rule("author"@, author)] + match conversation_id {
        Some(c) => seq![quoted_rule("conversation_id"@, c)],
        None => Seq::empty(),
    } + seq![
        text_rule("reply_settings"@, reply_setting_name(reply_settings)),
        list_rule::<PostReference>("referenced_posts"@, referenced_posts),
    ]
}

/// Optional attachments as their models.
pub open spec fn opt_attachments_view(a: Option<Vec<PostAttachment>>) -> Option<Seq<AttachmentModel>> {
    match a {
        Some(v) => Some(list_view(v@)),
        None => None,
    }
}

/// Messages that a contract sends to the posts module.
#[derive(PartialEq, Eq, Debug)]
pub enum PostsMsg {
    /// Creates a post.
    CreatePost {
        subspace_id: u64,
        section_id: u32,
        external_id: Option<String>,
        text: Option<String>,
        entities: Option<Entities>,
        attachments: Option<Vec<PostAttachment>>,
        author: String,
        conversation_id: Option<u64>,
        reply_settings: ReplySetting,
        referenced_posts: Vec<PostReference>,
    },
    /// Changes the text of a post.
    EditPost {
        subspace_id: u64,
        post_id: u64,
        text: String,
        entities: Option<Entities>,
        editor: String,
    },
    /// Deletes a post.
    DeletePost { subspace_id: u64, post_id: u64, signer: String },
    /// Adds an attachment to a post.
    AddPostAttachment { subspace_id: u64, post_id: u64, content: PostAttachment, editor: String },
    /// Removes an attachment from a post.
    RemovePostAttachment { subspace_id: u64, post_id: u64, attachment_id: u32, editor: String },
    /// Answers a poll attached to a post.
    AnswerPoll {
        subspace_id: u64,
        post_id: u64,
        poll_id: u32,
        answers_indexes: Vec<u32>,
        signer: String,
    },
}

/// The chain's name of each message.
pub open spec fn msg_name(msg: PostsMsg) -> Seq<char> {
    match msg {
        PostsMsg::CreatePost { .. } => "create_post"@,
        PostsMsg::EditPost { .. } => "edit_post"@,
        PostsMsg::DeletePost { .. } => "delete_post"@,
        PostsMsg::AddPostAttachment { .. } => "add_post_attachment"@,
        PostsMsg::RemovePostAttachment { .. } => "remove_post_attachment"@,
        PostsMsg::AnswerPoll { .. } => "answer_poll"@,
    }
}

/// The fields of each message, in the order of the chain's operation.
pub open spec fn msg_fields_wire(msg: PostsMsg, fs: Seq<WireField>) -> bool {
    match msg {
        PostsMsg::CreatePost {
            subspace_id,
            section_id,
            external_id,
            text,
            entities,
            attachments,
            author,
            conversation_id,
            reply_settings,
            referenced_posts,
        } => fields_follow(
            fs,
            create_post_rules(
                subspace_id,
                section_id,
                opt_view(external_id),
                opt_view(text),
                entities,
                opt_attachments_view(attachments),
                author@,
                conversation_id,
                reply_settings,
                list_view(referenced_posts@),
            ),
        ),
        PostsMsg::EditPost { subspace_id, post_id, text, entities, editor } => fields_follow(
            fs,
            seq![
                quoted_rule("subspace_id"@, subspace_id),
                quoted_rule("post_id"@, post_id),
                text_rule("text"@, text@),
            ] + opt_entities_rule("entities"@, entities) + seq![text_rule("editor"@, editor@)],
        ),
        PostsMsg::DeletePost { subspace_id, post_id, signer } => {
            &&& keys_are(fs, seq!["subspace_id"@, "post_id"@, "signer"@])
            &&& fs[0].value == WireValue::Quoted(subspace_id)
            &&& fs[1].value == WireValue::Quoted(post_id)
            &&& is_text_field(fs[2], "signer"@, signer@)
        },
        PostsMsg::AddPostAttachment { subspace_id, post_id, content, editor } => {
            &&& keys_are(fs, seq!["subspace_id"@, "post_id"@, "content"@, "editor"@])
            &&& fs[0].value == WireValue::Quoted(subspace_id)
            &&& fs[1].value == WireValue::Quoted(post_id)
            &&& is_attachment_wire(content@, fs[2].value)
            &&& is_text_field(fs[3], "editor"@, editor@)
        },
        PostsMsg::RemovePostAttachment { subspace_id, post_id, attachment_id, editor } => {
            &&& keys_are(fs, seq!["subspace_id"@, "post_id"@, "attachment_id"@, "editor"@])
            &&& fs[0].value == WireValue::Quoted(subspace_id)
            &&& fs[1].value == WireValue::Quoted(post_id)
            &&& fs[2].value == WireValue::Number(attachment_id as u64)
            &&& is_text_field(fs[3], "editor"@, editor@)
        },
        PostsMsg::AnswerPoll { subspace_id, post_id, poll_id, answers_indexes, signer } => {
            &&& keys_are(
                fs,
                seq!["subspace_id"@, "post_id"@, "poll_id"@, "answers_indexes"@, "signer"@],
            )
            &&& fs[0].value == WireValue::Quoted(subspace_id)
            &&& fs[1].value == WireValue::Quoted(post_id)
            &&& fs[2].value == WireValue::Number(poll_id as u64)
            &&& is_list_wire::<u32>(answers_indexes@, fs[3].value)
            &&& is_text_field(fs[4], "signer"@, signer@)
        },
    }
}

/// The single wire shape of a message: an object whose one key names the
/// message and holds its fields.
pub open spec fn is_msg_wire(msg: PostsMsg, w: WireValue) -> bool {
    &&& w matches WireValue::Object(outer)
    &&& outer@.len() == 1
    &&& outer@[0].key@ == msg_name(msg)
    &&& outer@[0].value matches WireValue::Object(fs)
    &&& msg_fields_wire(msg, fs@)
}

impl PostsMsg {
    /// The wire shape of this message.
    pub fn encode(&self) -> (w: WireValue)
        ensures
            is_msg_wire(*self, w),
    {
        let mut fs: Vec<WireField> = Vec::new();
        let name = match self {
            PostsMsg::CreatePost {
                subspace_id,
                section_id,
                external_id,
                text,
                entities,
                attachments,
                author,
                conversation_id,
                reply_settings,
                referenced_posts,
            } => {
                Self::encode_create_post(
                    &mut fs,
                    *subspace_id,
                    *section_id,
                    external_id,
                    text,
                    entities,
                    attachments,
                    author,
                    *conversation_id,
                    *reply_settings,
                    referenced_posts,
                );
                "create_post"
            },
            PostsMsg::EditPost { subspace_id, post_id, text, entities, editor } => {
                let ghost mut r: Seq<FieldRule> = Seq::empty();
                push_field(
                    &mut fs,
                    Ghost(r),
                    field("subspace_id", WireValue::Quoted(*subspace_id)),
                    Ghost(quoted_rule("subspace_id"@, *subspace_id)),
                );
                proof {
                    r = r.push(quoted_rule("subspace_id"@, *subspace_id));
                }
                push_field(
                    &mut fs,
                    Ghost(r),
                    field("post_id", WireValue::Quoted(*post_id)),
                    Ghost(quoted_rule("post_id"@, *post_id)),
                );
                proof {
                    r = r.push(quoted_rule("post_id"@, *post_id));
                }
                push_field(
                    &mut fs,
                    Ghost(r),
                    field("text", WireValue::Text(text.clone())),
                    Ghost(text_rule("text"@, text@)),
                );
                proof {
                    r = r.push(text_rule("text"@, text@));
                }
                push_opt_entities(&mut fs, Ghost(r), "entities", entities);
                proof {
                    r = r + opt_entities_rule("entities"@, *entities);
                }
                push_field(
                    &mut fs,
                    Ghost(r),
                    field("editor", WireValue::Text(editor.clone())),
                    Ghost(text_rule("editor"@, editor@)),
                );
                proof {
                    r = r.push(text_rule("editor"@, editor@));
                }
                assert(r =~= seq![
                    quoted_rule("subspace_id"@, *subspace_id),
                    quoted_rule("post_id"@, *post_id),
                    text_rule("text"@, text@),
                ] + opt_entities_rule("entities"@, *entities) + seq![text_rule("editor"@, editor@)]);
                "edit_post"
            },
            PostsMsg::DeletePost { subspace_id, post_id, signer } => {
                fs.push(field("subspace_id", WireValue::Quoted(*subspace_id)));
                fs.push(field("post_id", WireValue::Quoted(*post_id)));
                fs.push(field("signer", WireValue::Text(signer.clone())));
                "delete_post"
            },
            PostsMsg::AddPostAttachment { subspace_id, post_id, content, editor } => {
                fs.push(field("subspace_id", WireValue::Quoted(*subspace_id)));
                fs.push(field("post_id", WireValue::Quoted(*post_id)));
                fs.push(field("content", content.encode()));
                fs.push(field("editor", WireValue::Text(editor.clone())));
                "add_post_attachment"
            },
            PostsMsg::RemovePostAttachment { subspace_id, post_id, attachment_id, editor } => {
                fs.push(field("subspace_id", WireValue::Quoted(*subspace_id)));
                fs.push(field("post_id", WireValue::Quoted(*post_id)));
                fs.push(field("attachment_id", WireValue::Number(*attachment_id as u64)));
                fs.push(field("editor", WireValue::Text(editor.clone())));
                "remove_post_attachment"
            },
            PostsMsg::AnswerPoll { subspace_id, post_id, poll_id, answers_indexes, signer } => {
                fs.push(field("subspace_id", WireValue::Quoted(*subspace_id)));
                fs.push(field("post_id", WireValue::Quoted(*post_id)));
                fs.push(field("poll_id", WireValue::Number(*poll_id as u64)));
                fs.push(field("answers_indexes", encode_list(answers_indexes)));
                fs.push(field("signer", WireValue::Text(signer.clone())));
                assert(list_view(answers_indexes@) =~= answers_indexes@);
                "answer_poll"
            },
        };
        assert(msg_fields_wire(*self, fs@));
        let mut outer: Vec<WireField> = Vec::new();
        outer.push(field(name, WireValue::Object(fs)));
        WireValue::Object(outer)
    }

    /// Writes the fields of a post creation, leaving out the unset ones.
    fn encode_create_post(
        fs: &mut Vec<WireField>,
        subspace_id: u64,
        section_id: u32,
        external_id: &Option<String>,
        text: &Option<String>,
        entities: &Option<Entities>,
        attachments: &Option<Vec<PostAttachment>>,
        author: &String,
        conversation_id: Option<u64>,
        reply_settings: ReplySetting,
        referenced_posts: &Vec<PostReference>,
    )
        requires
            old(fs)@.len() == 0,
        ensures
            fields_follow(
                final(fs)@,
                create_post_rules(
                    subspace_id,
                    section_id,
                    opt_view(*external_id),
                    opt_view(*text),
                    *entities,
                    opt_attachments_view(*attachments),
                    author@,
                    conversation_id,
                    reply_settings,
                    list_view(referenced_posts@),
                ),
            ),
    {
        let ghost mut rules: Seq<FieldRule> = Seq::empty();
        let f = field("subspace_id", WireValue::Quoted(subspace_id));
        proof {
            lemma_fields_follow_push(fs@, rules, f, quoted_rule("subspace_id"@, subspace_id));
            rules = rules.push(quoted_rule("subspace_id"@, subspace_id));
        }
        fs.push(f);
        let f = field("section_id", WireValue::Number(section_id as u64));
        proof {
            lemma_fields_follow_push(fs@, rules, f, number_rule("section_id"@, section_id as u64));
            rules = rules.push(number_rule("section_id"@, section_id as u64));
        }
        fs.push(f);
        match external_id {
            Some(t) => {
                let f = field("external_id", WireValue::Text(t.clone()));
                proof {
                    lemma_fields_follow_push(fs@, rules, f, text_rule("external_id"@, t@));
                    rules = rules.push(text_rule("external_id"@, t@));
                }
                fs.push(f);
            },
            None => {},
        }
        match text {
            Some(t) => {
                let f = field("text", WireValue::Text(t.clone()));
                proof {
                    lemma_fields_follow_push(fs@, rules, f, text_rule("text"@, t@));
                    rules = rules.push(text_rule("text"@, t@));
                }
                fs.push(f);
            },
            None => {},
        }
        push_opt_entities(fs, Ghost(rules), "entities", entities);
        proof {
            rules = rules + opt_entities_rule("entities"@, *entities);
        }
        match attachments {
            Some(a) => {
                let f = field("attachments", encode_list(a));
                proof {
                    lemma_fields_follow_push(fs@, rules, f, attachments_rule("attachments"@, list_view(a@)));
                    rules = rules.push(attachments_rule("attachments"@, list_view(a@)));
                }
                fs.push(f);
            },
            None => {},
        }
        let f = field("author", WireValue::Text(author.clone()));
        proof {
            lemma_fields_follow_push(fs@, rules, f, text_rule("author"@, author@));
            rules = rules.push(text_rule("author"@, author@));
        }
        fs.push(f);
        match conversation_id {
            Some(c) => {
                let f = field("conversation_id", WireValue::Quoted(c));
                proof {
                    lemma_fields_follow_push(fs@, rules, f, quoted_rule("conversation_id"@, c));
                    rules = rules.push(quoted_rule("conversation_id"@, c));
                }
                fs.push(f);
            },
            None => {},
        }
        let f = field("reply_settings", reply_settings.encode());
        proof {
            lemma_fields_follow_push(
                fs@,
                rules,
                f,
                text_rule("reply_settings"@, reply_setting_name(reply_settings)),
            );
            rules = rules.push(text_rule("reply_settings"@, reply_setting_name(reply_settings)));
        }
        fs.push(f);
        push_field(
            fs,
            Ghost(rules),
            field("referenced_posts", encode_list(referenced_posts)),
            Ghost(list_rule::<PostReference>("referenced_posts"@, list_view(referenced_posts@))),
        );
        proof {
            rules = rules.push(list_rule::<PostReference>("referenced_posts"@, list_view(referenced_posts@)));
        }
        assert(rules =~= create_post_rules(
            subspace_id,
            section_id,
            opt_view(*external_id),
            opt_view(*text),
            *entities,
            opt_attachments_view(*attachments),
            author@,
            conversation_id,
            reply_settings,
            list_view(referenced_posts@),
        ));
    }
}

} // verus!
