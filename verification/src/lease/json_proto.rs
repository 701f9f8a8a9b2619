//! The requests and responses that a client and a lease manager exchange.
//!
//! What is here are the values and the rules for making and reading them.
//! How they are written as text is left to whoever sends them.

use crate::lease::{Lease, LeaseView, TTL};
use crate::table::Table;
use vstd::prelude::*;
use vstd::string::*;

verus! {

/// A permission as plain values.
pub struct PermissionsView {
    pub action: Seq<char>,
    pub resource: Map<Seq<char>, Seq<char>>,
}

/// What a lease is to permit: an action on the resources that match.
#[derive(Debug)]
pub struct LeaseProtocolPermissions {
    action: String,
    resource: Table<String, String>,
}

impl View for LeaseProtocolPermissions {
    type V = PermissionsView;

    closed spec fn view(&self) -> PermissionsView {
        PermissionsView {
            action: self.action@,
            resource: self.resource@.map_values(|s: String| s@),
        }
    }
}

impl LeaseProtocolPermissions {
    /// The resource names each property once.
    pub closed spec fn wf(&self) -> bool {
        self.resource.wf()
    }

    /// The permission to do `action` on the resources whose properties are
    /// those of `resource`.
    pub fn new(action: &str, resource: Table<String, String>) -> (res: Self)
        requires
            resource.wf(),
        ensures
            res.wf(),
            res@ == (PermissionsView {
                action: action@,
                resource: resource@.map_values(|s: String| s@),
            }),
    {
        LeaseProtocolPermissions { action: String::from_str(action), resource }
    }

    /// The permitted action.
    pub fn action(&self) -> (res: &str)
        ensures
            res@ == self@.action,
    {
        self.action.as_str()
    }

    /// The properties of the resources that the permission is for.
    pub fn resource(&self) -> (res: &Table<String, String>)
        ensures
            res@.map_values(|s: String| s@) == self@.resource,
            self.wf() ==> res.wf(),
    {
        &self.resource
    }
}

/// The permissions of a sequence, as plain values.
pub open spec fn permissions_view(permissions: Seq<LeaseProtocolPermissions>) -> Seq<
    PermissionsView,
> {
    permissions.map_values(|p: LeaseProtocolPermissions| p@)
}

/// An option as plain values.
pub enum OptionView {
    TTL(nat),
    OrgId(Seq<char>),
    Permissions(Seq<PermissionsView>),
}

/// One option of a request.
#[derive(Debug)]
pub enum LeaseProtocolOption {
    /// How long the lease is to live.
    TTL(TTL),
    /// The organization that the lease is for.
    OrgId(String),
    /// What the lease is to permit.
    Permissions(Vec<LeaseProtocolPermissions>),
}

impl View for LeaseProtocolOption {
    type V = OptionView;

    open spec fn view(&self) -> OptionView {
        match self {
            LeaseProtocolOption::TTL(ttl) => OptionView::TTL(*ttl as nat),
            LeaseProtocolOption::OrgId(org) => OptionView::OrgId(org@),
            LeaseProtocolOption::Permissions(p) => OptionView::Permissions(permissions_view(p@)),
        }
    }
}

/// The options of a request, as plain values.
pub open spec fn options_view(options: Map<Seq<char>, LeaseProtocolOption>) -> Map<
    Seq<char>,
    OptionView,
> {
    options.map_values(|o: LeaseProtocolOption| o@)
}

/// A request as plain values.
pub struct RequestView {
    pub action: Seq<char>,
    pub options: Map<Seq<char>, OptionView>,
    pub token_id: Seq<char>,
}

/// The permission that a new lease asks for: to read authorizations.
pub open spec fn read_authorizations() -> PermissionsView {
    PermissionsView {
        action: "read"@,
        resource: Map::<Seq<char>, Seq<char>>::empty().insert("type"@, "authorizations"@),
    }
}

/// The request for a new lease that lives `ttl`, for the organization
/// `org_id`.
pub open spec fn create_request(ttl: nat, org_id: Seq<char>) -> RequestView {
    RequestView {
        action: "create"@,
        options: Map::<Seq<char>, OptionView>::empty().insert("ttl"@, OptionView::TTL(ttl)).insert(
            "orgID"@,
            OptionView::OrgId(org_id),
        ).insert("permissions"@, OptionView::Permissions(seq![read_authorizations()])),
        token_id: Seq::empty(),
    }
}

/// What a client asks of a lease manager: an action, its options by name,
/// and the token that the action is about, which is empty where the action
/// is about none.
#[derive(Debug)]
pub struct LeaseProtocolRequest {
    action: String,
    options: Table<String, LeaseProtocolOption>,
    token_id: String,
}

impl View for LeaseProtocolRequest {
    type V = RequestView;

    closed spec fn view(&self) -> RequestView {
        RequestView {
            action: self.action@,
            options: options_view(self.options@),
            token_id: self.token_id@,
        }
    }
}

impl LeaseProtocolRequest {
    /// The options name each option once.
    pub closed spec fn wf(&self) -> bool {
        self.options.wf()
    }

    /// The request to do `action` with `options` on the token `token_id`.
    pub fn new(action: &str, options: Table<String, LeaseProtocolOption>, token_id: &str) -> (res:
        Self)
        requires
            options.wf(),
        ensures
            res.wf(),
            res@ == (RequestView {
                action: action@,
                options: options_view(options@),
                token_id: token_id@,
            }),
    {
        LeaseProtocolRequest {
            action: String::from_str(action),
            options,
            token_id: String::from_str(token_id),
        }
    }

    /// The request to do `action` on the token `token_id`, without options.
    pub fn new_no_opts(action: &str, token_id: &str) -> (res: Self)
        ensures
            res.wf(),
            res@ == (RequestView {
                action: action@,
                options: Map::<Seq<char>, OptionView>::empty(),
                token_id: token_id@,
            }),
    {
        let res = Self::new(action, Table::new(), token_id);
        assert(res@.options =~= Map::<Seq<char>, OptionView>::empty());
        res
    }

    /// The request for the lease behind the token `token_id`.
    pub fn get(token_id: &str) -> (res: Self)
        ensures
            res.wf(),
            res@ == (RequestView {
                action: "get"@,
                options: Map::<Seq<char>, OptionView>::empty(),
                token_id: token_id@,
            }),
    {
        Self::new_no_opts("get", token_id)
    }

    /// The request to revoke the lease behind the token `token_id`.
    pub fn revoke(token_id: &str) -> (res: Self)
        ensures
            res.wf(),
            res@ == (RequestView {
                action: "revoke"@,
                options: Map::<Seq<char>, OptionView>::empty(),
                token_id: token_id@,
            }),
    {
        Self::new_no_opts("revoke", token_id)
    }

    /// The request for a new lease that lives `ttl`, for the organization
    /// `org_id`, with the permission to read authorizations.
    pub fn create(ttl: TTL, org_id: &str) -> (res: Self)
        ensures
            res.wf(),
            res@ == create_request(ttl as nat, org_id@),
    {
        let mut options: Table<String, LeaseProtocolOption> = Table::new();
        options.insert(String::from_str("ttl"), LeaseProtocolOption::TTL(ttl));
        options.insert(
            String::from_str("orgID"),
            LeaseProtocolOption::OrgId(String::from_str(org_id)),
        );

        let mut resource: Table<String, String> = Table::new();
        resource.insert(String::from_str("type"), String::from_str("authorizations"));

        let permissions = LeaseProtocolPermissions::new("read", resource);
        proof {
            assert(permissions@.resource =~= read_authorizations().resource);
        }

        let mut list: Vec<LeaseProtocolPermissions> = Vec::new();
        list.push(permissions);
        proof {
            assert(permissions_view(list@) =~= seq![read_authorizations()]);
        }
        options.insert(String::from_str("permissions"), LeaseProtocolOption::Permissions(list));
        let res = LeaseProtocolRequest::new("create", options, "");
        proof {
            reveal_strlit("");
            assert(res@.token_id =~= Seq::<char>::empty());
            assert(res@.options =~= create_request(ttl as nat, org_id@).options);
        }
        res
    }

    /// What the request asks to do.
    pub fn action(&self) -> (res: &str)
        ensures
            res@ == self@.action,
    {
        self.action.as_str()
    }

    /// The options of the request.
    pub fn options(&self) -> (res: &Table<String, LeaseProtocolOption>)
        ensures
            options_view(res@) == self@.options,
            self.wf() ==> res.wf(),
    {
        &self.options
    }

    /// The token that the request is about.
    pub fn token_id(&self) -> (res: &str)
        ensures
            res@ == self@.token_id,
    {
        self.token_id.as_str()
    }
}

/// A response as plain values.
pub struct ResponseView {
    pub result: Seq<char>,
    pub lease: Option<LeaseView>,
    pub message: Seq<char>,
}

impl ResponseView {
    /// A response is a success when it says so and brings a lease.
    pub open spec fn is_success(self) -> bool {
        self.result == "success"@ && self.lease is Some
    }

    /// The response that reports a failure with `message`.
    pub open spec fn failure(message: Seq<char>) -> ResponseView {
        ResponseView { result: "failure"@, lease: None, message }
    }
}

/// The view of an optional lease.
pub open spec fn lease_view(lease: Option<Lease>) -> Option<LeaseView> {
    match lease {
        Some(l) => Some(l@),
        None => None,
    }
}

/// What a lease manager answers: how it went, the lease where there is one,
/// and a message, which is empty where there is nothing to say.
#[derive(Debug, PartialEq, Eq)]
pub struct LeaseProtocolResponse {
    result: String,
    lease: Option<Lease>,
    message: String,
}

impl View for LeaseProtocolResponse {
    type V = ResponseView;

    closed spec fn view(&self) -> ResponseView {
        ResponseView {
            result: self.result@,
            lease: lease_view(self.lease),
            message: self.message@,
        }
    }
}

impl Clone for LeaseProtocolResponse {
    fn clone(&self) -> (res: Self)
        ensures
            res@ == self@,
    {
        let lease = match &self.lease {
            Some(l) => Some(l.clone()),
            None => None,
        };
        LeaseProtocolResponse { result: self.result.clone(), lease, message: self.message.clone() }
    }
}

impl LeaseProtocolResponse {
    /// The response with these three parts, as it was read off the wire.
    pub fn from_parts(result: &str, lease: Option<Lease>, message: &str) -> (res: Self)
        ensures
            res@ == (ResponseView {
                result: result@,
                lease: lease_view(lease),
                message: message@,
            }),
    {
        LeaseProtocolResponse {
            result: String::from_str(result),
            lease,
            message: String::from_str(message),
        }
    }

    /// The response that was read, or a failure without a message where
    /// what arrived could not be read as a response.
    pub fn or_failure(parsed: Option<LeaseProtocolResponse>) -> (res: Self)
        ensures
            res@ == (match parsed {
                Some(r) => r@,
                None => ResponseView::failure(Seq::empty()),
            }),
    {
        match parsed {
            Some(r) => r,
            None => Self::failure(),
        }
    }

    /// The response that reports a failure and says no more.
    pub fn failure() -> (res: Self)
        ensures
            res@ == ResponseView::failure(Seq::empty()),
    {
        proof {
            reveal_strlit("");
        }
        let res = Self::failure_with_message("");
        assert(res@.message =~= Seq::<char>::empty());
        res
    }

    /// The response that reports a failure with `message`.
    pub fn failure_with_message(message: &str) -> (res: Self)
        ensures
            res@ == ResponseView::failure(message@),
    {
        LeaseProtocolResponse {
            result: String::from_str("failure"),
            lease: None,
            message: String::from_str(message),
        }
    }

    /// The response that brings `lease`.
    pub fn success(lease: Lease) -> (res: Self)
        ensures
            res@ == (ResponseView {
                result: "success"@,
                lease: Some(lease@),
                message: Seq::empty(),
            }),
            res@.is_success(),
    {
        LeaseProtocolResponse {
            result: String::from_str("success"),
            lease: Some(lease),
            message: String::new(),
        }
    }

    /// Whether the response says that it went well and brings a lease.
    pub fn is_success(&self) -> (res: bool)
        ensures
            res == self@.is_success(),
    {
        let success = String::from_str("success");
        self.result == success && self.lease.is_some()
    }

    /// How it went, in the manager's word.
    pub fn result(&self) -> (res: &str)
        ensures
            res@ == self@.result,
    {
        self.result.as_str()
    }

    /// The message of the response.
    pub fn message(&self) -> (res: &str)
        ensures
            res@ == self@.message,
    {
        self.message.as_str()
    }

    /// The lease that the response brings, if any.
    pub fn lease(&self) -> (res: Option<&Lease>)
        ensures
            match res {
                Some(l) => self@.lease == Some(l@),
                None => self@.lease is None,
            },
    {
        self.lease.as_ref()
    }
}

} // verus!
