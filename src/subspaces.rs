//! The subspaces module's queries.
use vstd::prelude::*;
use vstd::string::*;
use crate::types::{
    opt_page_request_rule, opt_page_request_view, push_opt_page_request, PageRequest,
};
use crate::wire::{
    envelope, field, is_envelope_wire, number_rule, opt_number_rule, push_field, push_opt_number,
    quoted_rule, text_rule, FieldRule, WireField, WireValue,
};

verus! {

/// Query messages that can be sent to the subspaces module.
#[allow(inconsistent_fields)]
#[derive(PartialEq, Eq, Debug)]
pub enum SubspacesQuery {
    /// The subspaces that exist.
    Subspaces { pagination: Option<PageRequest> },
    /// One subspace.
    Subspace { subspace_id: u64 },
    /// The sections of a subspace.
    Sections { subspace_id: u64, pagination: Option<PageRequest> },
    /// One section of a subspace.
    Section { subspace_id: u64, section_id: u32 },
    /// The user groups of a subspace, or of one of its sections.
    UserGroups { subspace_id: u64, section_id: Option<u32>, pagination: Option<PageRequest> },
    /// One user group.
    UserGroup { subspace_id: u64, group_id: u32 },
    /// The members of a user group.
    UserGroupMembers { subspace_id: u64, group_id: u32, pagination: Option<PageRequest> },
    /// The permissions that a user has inside a subspace, or one of its sections.
    UserPermissions { subspace_id: u64, section_id: Option<u32>, user: String },
}


/// The chain's name of each subspaces query.
pub open spec fn subspaces_query_name(q: SubspacesQuery) -> Seq<char> {
    match q {
        SubspacesQuery::Subspaces { .. } => "subspaces"@,
        SubspacesQuery::Subspace { .. } => "subspace"@,
        SubspacesQuery::Sections { .. } => "sections"@,
        SubspacesQuery::Section { .. } => "section"@,
        SubspacesQuery::UserGroups { .. } => "user_groups"@,
        SubspacesQuery::UserGroup { .. } => "user_group"@,
        SubspacesQuery::UserGroupMembers { .. } => "user_group_members"@,
        SubspacesQuery::UserPermissions { .. } => "user_permissions"@,
    }
}

/// The fields of each subspaces query, in order; an unset optional field is left out.
pub open spec fn subspaces_query_rules(q: SubspacesQuery) -> Seq<FieldRule> {
    match q {
        SubspacesQuery::Subspaces { pagination } => opt_page_request_rule(
            "pagination"@,
            opt_page_request_view(pagination),
        ),
        SubspacesQuery::Subspace { subspace_id } => seq![quoted_rule("subspace_id"@, subspace_id)],
        SubspacesQuery::Sections { subspace_id, pagination } => {
            seq![quoted_rule("subspace_id"@, subspace_id)]
                + opt_page_request_rule("pagination"@, opt_page_request_view(pagination))
        },
        SubspacesQuery::Section { subspace_id, section_id } => {
            seq![quoted_rule("subspace_id"@, subspace_id)]
                + seq![number_rule("section_id"@, section_id as u64)]
        },
        SubspacesQuery::UserGroups { subspace_id, section_id, pagination } => {
            seq![quoted_rule("subspace_id"@, subspace_id)]
                + opt_number_rule("section_id"@, section_id)
                + opt_page_request_rule("pagination"@, opt_page_request_view(pagination))
        },
        SubspacesQuery::UserGroup { subspace_id, group_id } => {
            seq![quoted_rule("subspace_id"@, subspace_id)]
                + seq![number_rule("group_id"@, group_id as u64)]
        },
        SubspacesQuery::UserGroupMembers { subspace_id, group_id, pagination } => {
            seq![quoted_rule("subspace_id"@, subspace_id)]
                + seq![number_rule("group_id"@, group_id as u64)]
                + opt_page_request_rule("pagination"@, opt_page_request_view(pagination))
        },
        SubspacesQuery::UserPermissions { subspace_id, section_id, user } => {
            seq![quoted_rule("subspace_id"@, subspace_id)]
                + opt_number_rule("section_id"@, section_id)
                + seq![text_rule("user"@, user@)]
        },
    }
}

impl SubspacesQuery {
    /// The wire shape of this query: an object whose one key names the query
    /// and holds its fields.
    pub fn encode(&self) -> (w: WireValue)
        ensures
            is_envelope_wire(subspaces_query_name(*self), subspaces_query_rules(*self), w),
    {
        let mut fs: Vec<WireField> = Vec::new();
        let ghost mut r: Seq<FieldRule> = Seq::empty();
        let name = match self {
            SubspacesQuery::Subspaces { pagination } => {
                push_opt_page_request(&mut fs, Ghost(r), "pagination", pagination);
                proof {
                    r = r
                        + opt_page_request_rule("pagination"@, opt_page_request_view(*pagination));
                }
                "subspaces"
            },
            SubspacesQuery::Subspace { subspace_id } => {
                push_field(
                    &mut fs,
                    Ghost(r),
                    field("subspace_id", WireValue::Quoted(*subspace_id)),
                    Ghost(quoted_rule("subspace_id"@, *subspace_id)),
                );
                proof {
                    r = r.push(quoted_rule("subspace_id"@, *subspace_id));
                }
                "subspace"
            },
            SubspacesQuery::Sections { subspace_id, pagination } => {
                push_field(
                    &mut fs,
                    Ghost(r),
                    field("subspace_id", WireValue::Quoted(*subspace_id)),
                    Ghost(quoted_rule("subspace_id"@, *subspace_id)),
                );
                proof {
                    r = r.push(quoted_rule("subspace_id"@, *subspace_id));
                }
                push_opt_page_request(&mut fs, Ghost(r), "pagination", pagination);
                proof {
                    r = r
                        + opt_page_request_rule("pagination"@, opt_page_request_view(*pagination));
                }
                "sections"
            },
            SubspacesQuery::Section { subspace_id, section_id } => {
                push_field(
                    &mut fs,
                    Ghost(r),
                    field("subspace_id", WireValue::Quoted(*subspace_id)),
                    Ghost(quoted_rule("subspace_id"@, *subspace_id)),
                );
                proof {
                    r = r.push(quoted_rule("subspace_id"@, *subspace_id));
                }
                push_field(
                    &mut fs,
                    Ghost(r),
                    field("section_id", WireValue::Number(*section_id as u64)),
                    Ghost(number_rule("section_id"@, *section_id as u64)),
                );
                proof {
                    r = r.push(number_rule("section_id"@, *section_id as u64));
                }
                "section"
            },
            SubspacesQuery::UserGroups { subspace_id, section_id, pagination } => {
                push_field(
                    &mut fs,
                    Ghost(r),
                    field("subspace_id", WireValue::Quoted(*subspace_id)),
                    Ghost(quoted_rule("subspace_id"@, *subspace_id)),
                );
                proof {
                    r = r.push(quoted_rule("subspace_id"@, *subspace_id));
                }
                push_opt_number(&mut fs, Ghost(r), "section_id", *section_id);
                proof {
                    r = r + opt_number_rule("section_id"@, *section_id);
                }
                push_opt_page_request(&mut fs, Ghost(r), "pagination", pagination);
                proof {
                    r = r
                        + opt_page_request_rule("pagination"@, opt_page_request_view(*pagination));
                }
                "user_groups"
            },
            SubspacesQuery::UserGroup { subspace_id, group_id } => {
                push_field(
                    &mut fs,
                    Ghost(r),
                    field("subspace_id", WireValue::Quoted(*subspace_id)),
                    Ghost(quoted_rule("subspace_id"@, *subspace_id)),
                );
                proof {
                    r = r.push(quoted_rule("subspace_id"@, *subspace_id));
                }
                push_field(
                    &mut fs,
                    Ghost(r),
                    field("group_id", WireValue::Number(*group_id as u64)),
                    Ghost(number_rule("group_id"@, *group_id as u64)),
                );
                proof {
                    r = r.push(number_rule("group_id"@, *group_id as u64));
                }
                "user_group"
            },
            SubspacesQuery::UserGroupMembers { subspace_id, group_id, pagination } => {
                push_field(
                    &mut fs,
                    Ghost(r),
                    field("subspace_id", WireValue::Quoted(*subspace_id)),
                    Ghost(quoted_rule("subspace_id"@, *subspace_id)),
                );
                proof {
                    r = r.push(quoted_rule("subspace_id"@, *subspace_id));
                }
                push_field(
                    &mut fs,
                    Ghost(r),
                    field("group_id", WireValue::Number(*group_id as u64)),
                    Ghost(number_rule("group_id"@, *group_id as u64)),
                );
                proof {
                    r = r.push(number_rule("group_id"@, *group_id as u64));
                }
                push_opt_page_request(&mut fs, Ghost(r), "pagination", pagination);
                proof {
                    r = r
                        + opt_page_request_rule("pagination"@, opt_page_request_view(*pagination));
                }
                "user_group_members"
            },
            SubspacesQuery::UserPermissions { subspace_id, section_id, user } => {
                push_field(
                    &mut fs,
                    Ghost(r),
                    field("subspace_id", WireValue::Quoted(*subspace_id)),
                    Ghost(quoted_rule("subspace_id"@, *subspace_id)),
                );
                proof {
                    r = r.push(quoted_rule("subspace_id"@, *subspace_id));
                }
                push_opt_number(&mut fs, Ghost(r), "section_id", *section_id);
                proof {
                    r = r + opt_number_rule("section_id"@, *section_id);
                }
                push_field(
                    &mut fs,
                    Ghost(r),
                    field("user", WireValue::Text(user.clone())),
                    Ghost(text_rule("user"@, user@)),
                );
                proof {
                    r = r.push(text_rule("user"@, user@));
                }
                "user_permissions"
            },
        };
        assert(r =~= subspaces_query_rules(*self));
        envelope(name, fs)
    }
}

} // verus!
