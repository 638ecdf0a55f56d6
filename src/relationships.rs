//! The relationships module: relationships, user blocks, their queries and mocks.
use vstd::prelude::*;
use vstd::string::*;
use crate::types::{
    decode_paged, decode_paged_spec, encode_paged, is_paged_wire, opt_page_request_rule,
    opt_page_request_view, opt_page_view, push_opt_page_request, PageModel, PageRequest,
    PageResponse,
};
use crate::wire::{
    envelope, field, find_field, is_envelope_wire, is_text_field, keys_are, lemma_find_keyed,
    list_view, opt_text_rule, opt_view, push_field, push_opt_text, quoted_of, quoted_rule,
    read_quoted, read_text, text_of, DecodeError, FieldRule, WireCodec, WireField, WireValue,
};

verus! {

/// A relationship between two users inside a subspace.
#[derive(PartialEq, Eq, Debug)]
pub struct Relationship {
    pub creator: String,
    pub counterparty: String,
    pub subspace_id: u64,
}

/// The mathematical value of a [`Relationship`].
pub struct RelationshipModel {
    pub creator: Seq<char>,
    pub counterparty: Seq<char>,
    pub subspace_id: u64,
}

impl View for Relationship {
    type V = RelationshipModel;

    open spec fn view(&self) -> RelationshipModel {
        RelationshipModel {
            creator: self.creator@,
            counterparty: self.counterparty@,
            subspace_id: self.subspace_id,
        }
    }
}

/// The keys of a relationship, in wire order.
pub open spec fn relationship_keys() -> Seq<Seq<char>> {
    seq!["creator"@, "counterparty"@, "subspace_id"@]
}

/// What decoding a wire value as a relationship gives.
pub open spec fn decode_relationship_spec(w: WireValue) -> Result<RelationshipModel, DecodeError> {
    match w {
        WireValue::Object(fs) => match text_of(find_field(fs@, "creator"@)) {
            Err(e) => Err(e),
            Ok(creator) => match text_of(find_field(fs@, "counterparty"@)) {
                Err(e) => Err(e),
                Ok(counterparty) => match quoted_of(find_field(fs@, "subspace_id"@)) {
                    Err(e) => Err(e),
                    Ok(subspace_id) => Ok(RelationshipModel { creator, counterparty, subspace_id }),
                },
            },
        },
        _ => Err(DecodeError::MalformedValue),
    }
}

/// The single wire shape of a relationship.
pub open spec fn is_relationship_wire(m: RelationshipModel, w: WireValue) -> bool {
    &&& w matches WireValue::Object(fs)
    &&& keys_are(fs@, relationship_keys())
    &&& is_text_field(fs@[0], "creator"@, m.creator)
    &&& is_text_field(fs@[1], "counterparty"@, m.counterparty)
    &&& fs@[2].value == WireValue::Quoted(m.subspace_id)
}

/// Decoding the wire shape of a relationship gives it back.
pub proof fn lemma_relationship_round_trip(m: RelationshipModel, w: WireValue)
    requires
        is_relationship_wire(m, w),
    ensures
        decode_relationship_spec(w) == Ok::<RelationshipModel, DecodeError>(m),
{
    reveal_strlit("creator");
    reveal_strlit("counterparty");
    reveal_strlit("subspace_id");
    let ks = relationship_keys();
    assert(ks[0][1] != ks[1][1] && ks[0][0] != ks[2][0] && ks[1][0] != ks[2][0]);
    let fs = w->Object_0@;
    lemma_find_keyed(fs, ks, 0);
    lemma_find_keyed(fs, ks, 1);
    lemma_find_keyed(fs, ks, 2);
}

impl WireCodec for Relationship {
    open spec fn decoder() -> spec_fn(WireValue) -> Result<RelationshipModel, DecodeError> {
        |w: WireValue| decode_relationship_spec(w)
    }

    open spec fn is_wire(m: RelationshipModel, w: WireValue) -> bool {
        is_relationship_wire(m, w)
    }

    fn encode(&self) -> (w: WireValue) {
        let mut fs: Vec<WireField> = Vec::new();
        fs.push(field("creator", WireValue::Text(self.creator.clone())));
        fs.push(field("counterparty", WireValue::Text(self.counterparty.clone())));
        fs.push(field("subspace_id", WireValue::Quoted(self.subspace_id)));
        let w = WireValue::Object(fs);
        proof {
            assert(keys_are(fs@, relationship_keys()));
            lemma_relationship_round_trip(self@, w);
        }
        w
    }

    fn decode(w: &WireValue) -> (r: Result<Relationship, DecodeError>) {
        match w {
            WireValue::Object(fs) => {
                let creator = match read_text(fs, "creator") {
                    Ok(t) => t,
                    Err(e) => return Err(e),
                };
                let counterparty = match read_text(fs, "counterparty") {
                    Ok(t) => t,
                    Err(e) => return Err(e),
                };
                match read_quoted(fs, "subspace_id") {
                    Ok(subspace_id) => Ok(Relationship { creator, counterparty, subspace_id }),
                    Err(e) => Err(e),
                }
            },
            _ => Err(DecodeError::MalformedValue),
        }
    }

    proof fn lemma_wire_round_trip(m: RelationshipModel, w: WireValue) {
        lemma_relationship_round_trip(m, w);
    }
}

/// A block of one user by another inside a subspace.
#[derive(PartialEq, Eq, Debug)]
pub struct UserBlock {
    pub blocker: String,
    pub blocked: String,
    pub reason: String,
    pub subspace_id: u64,
}

/// The mathematical value of a [`UserBlock`].
pub struct UserBlockModel {
    pub blocker: Seq<char>,
    pub blocked: Seq<char>,
    pub reason: Seq<char>,
    pub subspace_id: u64,
}

impl View for UserBlock {
    type V = UserBlockModel;

    open spec fn view(&self) -> UserBlockModel {
        UserBlockModel {
            blocker: self.blocker@,
            blocked: self.blocked@,
            reason: self.reason@,
            subspace_id: self.subspace_id,
        }
    }
}

/// The keys of a user block, in wire order.
pub open spec fn user_block_keys() -> Seq<Seq<char>> {
    seq!["blocker"@, "blocked"@, "reason"@, "subspace_id"@]
}

/// What decoding a wire value as a user block gives.
pub open spec fn decode_user_block_spec(w: WireValue) -> Result<UserBlockModel, DecodeError> {
    match w {
        WireValue::Object(fs) => match text_of(find_field(fs@, "blocker"@)) {
            Err(e) => Err(e),
            Ok(blocker) => match text_of(find_field(fs@, "blocked"@)) {
                Err(e) => Err(e),
                Ok(blocked) => match text_of(find_field(fs@, "reason"@)) {
                    Err(e) => Err(e),
                    Ok(reason) => match quoted_of(find_field(fs@, "subspace_id"@)) {
                        Err(e) => Err(e),
                        Ok(subspace_id) => Ok(
                            UserBlockModel { blocker, blocked, reason, subspace_id },
                        ),
                    },
                },
            },
        },
        _ => Err(DecodeError::MalformedValue),
    }
}

/// The single wire shape of a user block.
pub open spec fn is_user_block_wire(m: UserBlockModel, w: WireValue) -> bool {
    &&& w matches WireValue::Object(fs)
    &&& keys_are(fs@, user_block_keys())
    &&& is_text_field(fs@[0], "blocker"@, m.blocker)
    &&& is_text_field(fs@[1], "blocked"@, m.blocked)
    &&& is_text_field(fs@[2], "reason"@, m.reason)
    &&& fs@[3].value == WireValue::Quoted(m.subspace_id)
}

/// Decoding the wire shape of a user block gives it back.
pub proof fn lemma_user_block_round_trip(m: UserBlockModel, w: WireValue)
    requires
        is_user_block_wire(m, w),
    ensures
        decode_user_block_spec(w) == Ok::<UserBlockModel, DecodeError>(m),
{
    reveal_strlit("blocker");
    reveal_strlit("blocked");
    reveal_strlit("reason");
    reveal_strlit("subspace_id");
    let ks = user_block_keys();
    assert(ks[0][6] != ks[1][6]);
    assert forall|i: int, j: int| 0 <= i < j < 4 && !(i == 0 && j == 1) implies ks[i][0]
        != ks[j][0] by {}
    let fs = w->Object_0@;
    lemma_find_keyed(fs, ks, 0);
    lemma_find_keyed(fs, ks, 1);
    lemma_find_keyed(fs, ks, 2);
    lemma_find_keyed(fs, ks, 3);
}

impl WireCodec for UserBlock {
    open spec fn decoder() -> spec_fn(WireValue) -> Result<UserBlockModel, DecodeError> {
        |w: WireValue| decode_user_block_spec(w)
    }

    open spec fn is_wire(m: UserBlockModel, w: WireValue) -> bool {
        is_user_block_wire(m, w)
    }

    fn encode(&self) -> (w: WireValue) {
        let mut fs: Vec<WireField> = Vec::new();
        fs.push(field("blocker", WireValue::Text(self.blocker.clone())));
        fs.push(field("blocked", WireValue::Text(self.blocked.clone())));
        fs.push(field("reason", WireValue::Text(self.reason.clone())));
        fs.push(field("subspace_id", WireValue::Quoted(self.subspace_id)));
        let w = WireValue::Object(fs);
        proof {
            assert(keys_are(fs@, user_block_keys()));
            lemma_user_block_round_trip(self@, w);
        }
        w
    }

    fn decode(w: &WireValue) -> (r: Result<UserBlock, DecodeError>) {
        match w {
            WireValue::Object(fs) => {
                let blocker = match read_text(fs, "blocker") {
                    Ok(t) => t,
                    Err(e) => return Err(e),
                };
                let blocked = match read_text(fs, "blocked") {
                    Ok(t) => t,
                    Err(e) => return Err(e),
                };
                let reason = match read_text(fs, "reason") {
                    Ok(t) => t,
                    Err(e) => return Err(e),
                };
                match read_quoted(fs, "subspace_id") {
                    Ok(subspace_id) => Ok(UserBlock { blocker, blocked, reason, subspace_id }),
                    Err(e) => Err(e),
                }
            },
            _ => Err(DecodeError::MalformedValue),
        }
    }

    proof fn lemma_wire_round_trip(m: UserBlockModel, w: WireValue) {
        lemma_user_block_round_trip(m, w);
    }
}

/// Query messages that can be sent to the relationships module.
#[derive(PartialEq, Eq, Debug)]
pub enum RelationshipsQuery {
    /// The relationships of a subspace. Response: [`QueryRelationshipsResponse`].
    Relationships {
        user: Option<String>,
        counterparty: Option<String>,
        subspace_id: u64,
        pagination: Option<PageRequest>,
    },
    /// The user blocks of a subspace. Response: [`QueryBlocksResponse`].
    Blocks {
        blocker: Option<String>,
        blocked: Option<String>,
        subspace_id: u64,
        pagination: Option<PageRequest>,
    },
}

/// The chain's name of each relationships query.
pub open spec fn relationships_query_name(q: RelationshipsQuery) -> Seq<char> {
    match q {
        RelationshipsQuery::Relationships { .. } => "relationships"@,
        RelationshipsQuery::Blocks { .. } => "blocks"@,
    }
}

/// The fields of each relationships query, in order; an unset optional field is left out.
pub open spec fn relationships_query_rules(q: RelationshipsQuery) -> Seq<FieldRule> {
    match q {
        RelationshipsQuery::Relationships { user, counterparty, subspace_id, pagination } => {
            opt_text_rule("user"@, opt_view(user))
                + opt_text_rule("counterparty"@, opt_view(counterparty))
                + seq![quoted_rule("subspace_id"@, subspace_id)]
                + opt_page_request_rule("pagination"@, opt_page_request_view(pagination))
        },
        RelationshipsQuery::Blocks { blocker, blocked, subspace_id, pagination } => {
            opt_text_rule("blocker"@, opt_view(blocker))
                + opt_text_rule("blocked"@, opt_view(blocked))
                + seq![quoted_rule("subspace_id"@, subspace_id)]
                + opt_page_request_rule("pagination"@, opt_page_request_view(pagination))
        },
    }
}

impl RelationshipsQuery {
    /// The wire shape of this query: an object whose one key names the query
    /// and holds its fields.
    pub fn encode(&self) -> (w: WireValue)
        ensures
            is_envelope_wire(relationships_query_name(*self), relationships_query_rules(*self), w),
    {
        let mut fs: Vec<WireField> = Vec::new();
        let ghost mut r: Seq<FieldRule> = Seq::empty();
        let name = match self {
            RelationshipsQuery::Relationships { user, counterparty, subspace_id, pagination } => {
                push_opt_text(&mut fs, Ghost(r), "user", user);
                proof {
                    r = r + opt_text_rule("user"@, opt_view(*user));
                }
                push_opt_text(&mut fs, Ghost(r), "counterparty", counterparty);
                proof {
                    r = r + opt_text_rule("counterparty"@, opt_view(*counterparty));
                }
                push_field(
                    &mut fs,
                    Ghost(r),
                    field("subspace_id", WireValue::Quoted(*subspace_id)),
                    Ghost(quoted_rule("subspace_id"@, *subspace_id)),
                );
                proof {
                    r = r.push(quoted_rule("subspace_id"@, *subspace_id));
                }
                push_opt_page_request(&mut fs, Ghost(r), "pagination", pagination);
                proof {
                    r = r
                        + opt_page_request_rule("pagination"@, opt_page_request_view(*pagination));
                }
                "relationships"
            },
            RelationshipsQuery::Blocks { blocker, blocked, subspace_id, pagination } => {
                push_opt_text(&mut fs, Ghost(r), "blocker", blocker);
                proof {
                    r = r + opt_text_rule("blocker"@, opt_view(*blocker));
                }
                push_opt_text(&mut fs, Ghost(r), "blocked", blocked);
                proof {
                    r = r + opt_text_rule("blocked"@, opt_view(*blocked));
                }
                push_field(
                    &mut fs,
                    Ghost(r),
                    field("subspace_id", WireValue::Quoted(*subspace_id)),
                    Ghost(quoted_rule("subspace_id"@, *subspace_id)),
                );
                proof {
                    r = r.push(quoted_rule("subspace_id"@, *subspace_id));
                }
                push_opt_page_request(&mut fs, Ghost(r), "pagination", pagination);
                proof {
                    r = r
                        + opt_page_request_rule("pagination"@, opt_page_request_view(*pagination));
                }
                "blocks"
            },
        };
        assert(r =~= relationships_query_rules(*self));
        envelope(name, fs)
    }
}

/// The answer to [`RelationshipsQuery::Relationships`].
#[derive(PartialEq, Eq, Debug)]
pub struct QueryRelationshipsResponse {
    pub relationships: Vec<Relationship>,
    pub pagination: Option<PageResponse>,
}

/// The answer to [`RelationshipsQuery::Blocks`].
#[derive(PartialEq, Eq, Debug)]
pub struct QueryBlocksResponse {
    pub blocks: Vec<UserBlock>,
    pub pagination: Option<PageResponse>,
}

impl QueryRelationshipsResponse {
    /// The wire shape of this response; decoding it gives the response back.
    pub fn encode(&self) -> (w: WireValue)
        ensures
            is_paged_wire::<Relationship>(
                "relationships"@,
                list_view(self.relationships@),
                opt_page_view(self.pagination),
                w,
            ),
            decode_paged_spec::<Relationship>("relationships"@, w) == Ok::<
                (Seq<RelationshipModel>, Option<PageModel>),
                DecodeError,
            >((list_view(self.relationships@), opt_page_view(self.pagination))),
    {
        proof {
            reveal_strlit("relationships");
            reveal_strlit("pagination");
            assert("relationships"@[0] != "pagination"@[0]);
        }
        encode_paged("relationships", &self.relationships, &self.pagination)
    }

    /// Reads a response from its wire shape.
    pub fn decode(w: &WireValue) -> (r: Result<QueryRelationshipsResponse, DecodeError>)
        ensures
            match r {
                Ok(q) => decode_paged_spec::<Relationship>("relationships"@, *w) == Ok::<
                    (Seq<RelationshipModel>, Option<PageModel>),
                    DecodeError,
                >((list_view(q.relationships@), opt_page_view(q.pagination))),
                Err(e) => decode_paged_spec::<Relationship>("relationships"@, *w) == Err::<
                    (Seq<RelationshipModel>, Option<PageModel>),
                    DecodeError,
                >(e),
            },
    {
        match decode_paged("relationships", w) {
            Ok((relationships, pagination)) => Ok(
                QueryRelationshipsResponse { relationships, pagination },
            ),
            Err(e) => Err(e),
        }
    }
}

impl QueryBlocksResponse {
    /// The wire shape of this response; decoding it gives the response back.
    pub fn encode(&self) -> (w: WireValue)
        ensures
            is_paged_wire::<UserBlock>(
                "blocks"@,
                list_view(self.blocks@),
                opt_page_view(self.pagination),
                w,
            ),
            decode_paged_spec::<UserBlock>("blocks"@, w) == Ok::<
                (Seq<UserBlockModel>, Option<PageModel>),
                DecodeError,
            >((list_view(self.blocks@), opt_page_view(self.pagination))),
    {
        proof {
            reveal_strlit("blocks");
            reveal_strlit("pagination");
            assert("blocks"@[0] != "pagination"@[0]);
        }
        encode_paged("blocks", &self.blocks, &self.pagination)
    }

    /// Reads a response from its wire shape.
    pub fn decode(w: &WireValue) -> (r: Result<QueryBlocksResponse, DecodeError>)
        ensures
            match r {
                Ok(q) => decode_paged_spec::<UserBlock>("blocks"@, *w) == Ok::<
                    (Seq<UserBlockModel>, Option<PageModel>),
                    DecodeError,
                >((list_view(q.blocks@), opt_page_view(q.pagination))),
                Err(e) => decode_paged_spec::<UserBlock>("blocks"@, *w) == Err::<
                    (Seq<UserBlockModel>, Option<PageModel>),
                    DecodeError,
                >(e),
            },
    {
        match decode_paged("blocks", w) {
            Ok((blocks, pagination)) => Ok(QueryBlocksResponse { blocks, pagination }),
            Err(e) => Err(e),
        }
    }
}

// ---------------------------------------------------------------- mocks

/// The address that the relationship fixtures start from.
pub const MOCK_USER: &'static str = "desmos1nwp8gxrnmrsrzjdhvk47vvmthzxjtphgxp5ftc";

/// The address that the relationship fixtures point to.
pub const MOCK_COUNTERPARTY: &'static str = "desmos1rfv0f7mx7w9d3jv3h803u38vqym9ygg344asm3";

/// The fixture relationship.
pub open spec fn mock_relationship_model() -> RelationshipModel {
    RelationshipModel { creator: MOCK_USER@, counterparty: MOCK_COUNTERPARTY@, subspace_id: 1 }
}

/// The fixture user block.
pub open spec fn mock_user_block_model() -> UserBlockModel {
    UserBlockModel {
        blocker: MOCK_USER@,
        blocked: MOCK_COUNTERPARTY@,
        reason: "test"@,
        subspace_id: 1,
    }
}

/// Fixture data of the relationships module.
pub struct MockRelationshipsQueries {}

impl MockRelationshipsQueries {
    /// The fixture relationship.
    pub fn get_mock_relationship() -> (r: Relationship)
        ensures
            r@ == mock_relationship_model(),
    {
        Relationship {
            creator: String::from_str(MOCK_USER),
            counterparty: String::from_str(MOCK_COUNTERPARTY),
            subspace_id: 1,
        }
    }

    /// The fixture user block.
    pub fn get_mock_user_block() -> (r: UserBlock)
        ensures
            r@ == mock_user_block_model(),
    {
        UserBlock {
            blocker: String::from_str(MOCK_USER),
            blocked: String::from_str(MOCK_COUNTERPARTY),
            reason: String::from_str("test"),
            subspace_id: 1,
        }
    }
}

/// Answers a relationships query with fixture data, already in its wire shape:
/// a one-item list with no page response. Decoding the answer gives the
/// fixture back.
pub fn mock_relationships_query_response(query: &RelationshipsQuery) -> (r: WireValue)
    ensures
        match query {
            RelationshipsQuery::Relationships { .. } => {
                &&& is_paged_wire::<Relationship>(
                    "relationships"@,
                    seq![mock_relationship_model()],
                    None,
                    r,
                )
                &&& decode_paged_spec::<Relationship>("relationships"@, r) == Ok::<
                    (Seq<RelationshipModel>, Option<PageModel>),
                    DecodeError,
                >((seq![mock_relationship_model()], None))
            },
            RelationshipsQuery::Blocks { .. } => {
                &&& is_paged_wire::<UserBlock>("blocks"@, seq![mock_user_block_model()], None, r)
                &&& decode_paged_spec::<UserBlock>("blocks"@, r) == Ok::<
                    (Seq<UserBlockModel>, Option<PageModel>),
                    DecodeError,
                >((seq![mock_user_block_model()], None))
            },
        },
{
    match query {
        RelationshipsQuery::Relationships { .. } => {
            let mut relationships: Vec<Relationship> = Vec::new();
            relationships.push(MockRelationshipsQueries::get_mock_relationship());
            let response = QueryRelationshipsResponse { relationships, pagination: None };
            assert(list_view(response.relationships@) =~= seq![mock_relationship_model()]);
            response.encode()
        },
        RelationshipsQuery::Blocks { .. } => {
            let mut blocks: Vec<UserBlock> = Vec::new();
            blocks.push(MockRelationshipsQueries::get_mock_user_block());
            let response = QueryBlocksResponse { blocks, pagination: None };
            assert(list_view(response.blocks@) =~= seq![mock_user_block_model()]);
            response.encode()
        },
    }
}

/// The answer to one relationships query.
#[derive(PartialEq, Eq, Debug)]
pub enum RelationshipsResponse {
    Relationships(QueryRelationshipsResponse),
    Blocks(QueryBlocksResponse),
}

/// Whether `r` is read as the answer to `query`: each query variant has its
/// own response type.
pub open spec fn decodes_answer(query: RelationshipsQuery, w: WireValue, r: Result<
    RelationshipsResponse,
    DecodeError,
>) -> bool {
    match query {
        RelationshipsQuery::Relationships { .. } => match r {
            Ok(RelationshipsResponse::Relationships(q)) => decode_paged_spec::<Relationship>(
                "relationships"@,
                w,
            ) == Ok::<(Seq<RelationshipModel>, Option<PageModel>), DecodeError>(
                (list_view(q.relationships@), opt_page_view(q.pagination)),
            ),
            Err(e) => decode_paged_spec::<Relationship>("relationships"@, w) == Err::<
                (Seq<RelationshipModel>, Option<PageModel>),
                DecodeError,
            >(e),
            _ => false,
        },
        RelationshipsQuery::Blocks { .. } => match r {
            Ok(RelationshipsResponse::Blocks(q)) => decode_paged_spec::<UserBlock>("blocks"@, w)
                == Ok::<(Seq<UserBlockModel>, Option<PageModel>), DecodeError>(
                (list_view(q.blocks@), opt_page_view(q.pagination)),
            ),
            Err(e) => decode_paged_spec::<UserBlock>("blocks"@, w) == Err::<
                (Seq<UserBlockModel>, Option<PageModel>),
                DecodeError,
            >(e),
            _ => false,
        },
    }
}

/// Reads the chain's answer to `query` as that query's response type.
pub fn decode_relationships_response(query: &RelationshipsQuery, w: &WireValue) -> (r: Result<
    RelationshipsResponse,
    DecodeError,
>)
    ensures
        decodes_answer(*query, *w, r),
{
    match query {
        RelationshipsQuery::Relationships { .. } => match QueryRelationshipsResponse::decode(w) {
            Ok(q) => Ok(RelationshipsResponse::Relationships(q)),
            Err(e) => Err(e),
        },
        RelationshipsQuery::Blocks { .. } => match QueryBlocksResponse::decode(w) {
            Ok(q) => Ok(RelationshipsResponse::Blocks(q)),
            Err(e) => Err(e),
        },
    }
}

} // verus!
