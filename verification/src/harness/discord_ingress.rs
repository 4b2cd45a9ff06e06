//! Discord ingress stress harness identifiers and normalisation rules.
//!
//! The stress configuration itself carries report paths and floating-point
//! quality gates and is assembled by the application from the pieces here.

use vstd::prelude::*;
use crate::text::{chars_of, concat2, dedup, lemma_dedup, str_eq, string_of, trim_str, trim_ws};

verus! {

/// Discord ingress config failure.
#[derive(Debug, Clone, PartialEq, Eq)]
pub enum DiscordIngressStressConfigError {
    /// Required text field was empty.
    MissingRequired(&'static str),
    /// Required numeric field was zero.
    ZeroValue(&'static str),
}

impl DiscordIngressStressConfigError {
    /// The error reports the empty required field `field`.
    pub open spec fn is_missing(self, field: Seq<char>) -> bool {
        match self {
            DiscordIngressStressConfigError::MissingRequired(f) => f@ == field,
            _ => false,
        }
    }

    /// The error reports the zero numeric field `field`.
    pub open spec fn is_zero(self, field: Seq<char>) -> bool {
        match self {
            DiscordIngressStressConfigError::ZeroValue(f) => f@ == field,
            _ => false,
        }
    }

    /// The diagnostic text of the error (its `Display` form).
    pub fn describe(&self) -> (s: String)
        ensures
            s@ == match self {
                DiscordIngressStressConfigError::MissingRequired(field) => field@ + " is required"@,
                DiscordIngressStressConfigError::ZeroValue(field) => field@
                    + " must be greater than zero"@,
            },
    {
        match self {
            DiscordIngressStressConfigError::MissingRequired(field) => concat2(field, " is required"),
            DiscordIngressStressConfigError::ZeroValue(field) => concat2(
                field,
                " must be greater than zero",
            ),
        }
    }
}

/// The trimmed value, when it is not empty.
pub open spec fn normalized_id(value: Seq<char>) -> Option<Seq<char>> {
    if trim_ws(value).len() > 0 {
        Some(trim_ws(value))
    } else {
        None
    }
}

fn normalize_optional(value: &str) -> (r: Option<String>)
    ensures
        match r {
            Some(s) => normalized_id(value@) == Some(s@),
            None => normalized_id(value@) is None,
        },
{
    let trimmed = trim_str(value);
    if trimmed.len() == 0 {
        None
    } else {
        Some(string_of(&trimmed))
    }
}

fn normalize_required(value: &str, field: &'static str) -> (r: Result<
    String,
    DiscordIngressStressConfigError,
>)
    ensures
        match r {
            Ok(s) => normalized_id(value@) == Some(s@),
            Err(e) => normalized_id(value@) is None && e
                == DiscordIngressStressConfigError::MissingRequired(field),
        },
{
    match normalize_optional(value) {
        Some(s) => Ok(s),
        None => Err(DiscordIngressStressConfigError::MissingRequired(field)),
    }
}

/// Discord channel id.
#[derive(Debug, Clone, PartialEq, Eq)]
pub struct DiscordChannelId(String);

impl View for DiscordChannelId {
    type V = Seq<char>;

    closed spec fn view(&self) -> Seq<char> {
        self.0@
    }
}

impl DiscordChannelId {
    /// Build a channel id from a trimmed, non-empty value; an empty one is
    /// [`DiscordIngressStressConfigError::MissingRequired`] for `channel_id`.
    pub fn new(value: &str) -> (r: Result<Self, DiscordIngressStressConfigError>)
        ensures
            match r {
                Ok(id) => normalized_id(value@) == Some(id@),
                Err(e) => normalized_id(value@) is None && e.is_missing("channel_id"@),
            },
    {
        match normalize_required(value, "channel_id") {
            Ok(s) => Ok(Self(s)),
            Err(e) => Err(e),
        }
    }

    /// Return the raw id.
    pub fn as_str(&self) -> (s: &str)
        ensures
            s@ == self@,
    {
        self.0.as_str()
    }
}

/// Discord user id.
#[derive(Debug, Clone, PartialEq, Eq)]
pub struct DiscordUserId(String);

impl View for DiscordUserId {
    type V = Seq<char>;

    closed spec fn view(&self) -> Seq<char> {
        self.0@
    }
}

impl DiscordUserId {
    /// Build a user id from a trimmed, non-empty value; an empty one is
    /// [`DiscordIngressStressConfigError::MissingRequired`] for `user_id`.
    pub fn new(value: &str) -> (r: Result<Self, DiscordIngressStressConfigError>)
        ensures
            match r {
                Ok(id) => normalized_id(value@) == Some(id@),
                Err(e) => normalized_id(value@) is None && e.is_missing("user_id"@),
            },
    {
        match normalize_required(value, "user_id") {
            Ok(s) => Ok(Self(s)),
            Err(e) => Err(e),
        }
    }

    /// Return the raw id.
    pub fn as_str(&self) -> (s: &str)
        ensures
            s@ == self@,
    {
        self.0.as_str()
    }
}

/// Discord guild id.
#[derive(Debug, Clone, PartialEq, Eq)]
pub struct DiscordGuildId(String);

impl View for DiscordGuildId {
    type V = Seq<char>;

    closed spec fn view(&self) -> Seq<char> {
        self.0@
    }
}

impl DiscordGuildId {
    /// Build a guild id from a trimmed, non-empty value.
    pub fn new(value: &str) -> (r: Option<Self>)
        ensures
            match r {
                Some(id) => normalized_id(value@) == Some(id@),
                None => normalized_id(value@) is None,
            },
    {
        match normalize_optional(value) {
            Some(s) => Some(Self(s)),
            None => None,
        }
    }

    /// Return the raw id.
    pub fn as_str(&self) -> (s: &str)
        ensures
            s@ == self@,
    {
        self.0.as_str()
    }
}

/// Discord role id.
#[derive(Debug, Clone, PartialEq, Eq)]
pub struct DiscordRoleId(String);

impl View for DiscordRoleId {
    type V = Seq<char>;

    closed spec fn view(&self) -> Seq<char> {
        self.0@
    }
}

impl DiscordRoleId {
    /// Build a role id from a trimmed, non-empty value.
    pub fn new(value: &str) -> (r: Option<Self>)
        ensures
            match r {
                Some(id) => normalized_id(value@) == Some(id@),
                None => normalized_id(value@) is None,
            },
    {
        match normalize_optional(value) {
            Some(s) => Some(Self(s)),
            None => None,
        }
    }

    /// Return the raw id.
    pub fn as_str(&self) -> (s: &str)
        ensures
            s@ == self@,
    {
        self.0.as_str()
    }
}

/// The values of a sequence of role ids.
pub open spec fn role_views(v: Seq<DiscordRoleId>) -> Seq<Seq<char>> {
    Seq::new(v.len(), |i: int| v[i]@)
}

fn require_non_zero(value: u32, field: &'static str) -> (r: Result<
    (),
    DiscordIngressStressConfigError,
>)
    ensures
        value == 0 ==> r == Err::<(), DiscordIngressStressConfigError>(
            DiscordIngressStressConfigError::ZeroValue(field),
        ),
        value != 0 ==> r is Ok,
{
    if value == 0 {
        Err(DiscordIngressStressConfigError::ZeroValue(field))
    } else {
        Ok(())
    }
}

/// Check the numeric fields of a stress configuration: the first of
/// `rounds`, `parallel` and `requests_per_worker` that is zero is reported
/// as [`DiscordIngressStressConfigError::ZeroValue`].
pub fn validate_stress_counts(rounds: u32, parallel: u32, requests_per_worker: u32) -> (r: Result<
    (),
    DiscordIngressStressConfigError,
>)
    ensures
        rounds != 0 && parallel != 0 && requests_per_worker != 0 <==> r is Ok,
        rounds == 0 ==> (r is Err && r->Err_0.is_zero("rounds"@)),
        rounds != 0 && parallel == 0 ==> (r is Err && r->Err_0.is_zero("parallel"@)),
        rounds != 0 && parallel != 0 && requests_per_worker == 0 ==> (r is Err
            && r->Err_0.is_zero("requests_per_worker"@)),
{
    require_non_zero(rounds, "rounds")?;
    require_non_zero(parallel, "parallel")?;
    require_non_zero(requests_per_worker, "requests_per_worker")?;
    Ok(())
}

/// Role ids with repeats dropped, first occurrences kept in order.
pub fn dedup_role_ids(values: Vec<DiscordRoleId>) -> (r: Vec<DiscordRoleId>)
    ensures
        role_views(r@) == dedup(role_views(values@)),
        role_views(r@).no_duplicates(),
        forall|x: Seq<char>| role_views(r@).contains(x) <==> role_views(values@).contains(x),
{
    let ghost vs = role_views(values@);
    let mut acc: Vec<DiscordRoleId> = Vec::new();
    let mut i: usize = 0;
    while i < values.len()
        invariant
            i <= values@.len(),
            vs == role_views(values@),
            role_views(acc@) == dedup(vs.take(i as int)),
        decreases values@.len() - i,
    {
        let value = &values[i];
        assert(vs.take(i + 1).drop_last() == vs.take(i as int));
        assert(vs.take(i + 1).last() == value@);
        let mut found = false;
        let mut j: usize = 0;
        while j < acc.len()
            invariant
                j <= acc@.len(),
                found <==> exists|k: int| 0 <= k < j && acc@[k]@ == value@,
            decreases acc@.len() - j,
        {
            if str_eq(acc[j].as_str(), value.as_str()) {
                found = true;
            }
            j += 1;
        }
        proof {
            let av = role_views(acc@);
            if found {
                let k = choose|k: int| 0 <= k < acc@.len() && acc@[k]@ == value@;
                assert(av[k] == value@);
            } else {
                assert forall|k: int| 0 <= k < av.len() implies av[k] != value@ by {
                    assert(av[k] == acc@[k]@);
                }
            }
        }
        if !found {
            let ghost before = acc@;
            acc.push(DiscordRoleId(value.0.clone()));
            assert(role_views(acc@) =~= role_views(before).push(value@));
        }
        i += 1;
    }
    assert(vs.take(values@.len() as int) == vs);
    proof {
        lemma_dedup(vs);
    }
    acc
}

} // verus!
