//! Trip participants: validation, export checks and head counts.
use vstd::prelude::*;

use crate::models::{ExportParticipantV4, Participant, ParticipantCounts};
use crate::text::{
    chars_of, nat_decimal, owned, push_str, push_string, push_u64_decimal, str_trim, strings_view,
    trim_seq,
};

verus! {

/// Longest accepted participant name, in characters.
pub const MAX_PARTICIPANT_NAME_LEN: usize = 200;

pub open spec fn msg_name_empty() -> Seq<char> {
    "name must not be empty"@
}

pub open spec fn msg_name_too_long() -> Seq<char> {
    "name is too long (max 200 characters)"@
}

pub open spec fn msg_sort_order_negative() -> Seq<char> {
    "sort_order must be non-negative"@
}

/// What validating a participant name gives: the trimmed name, or why not.
pub open spec fn participant_name_result(name: Seq<char>) -> Result<Seq<char>, Seq<char>> {
    let t = trim_seq(name);
    if t.len() == 0 {
        Err(msg_name_empty())
    } else if t.len() > MAX_PARTICIPANT_NAME_LEN {
        Err(msg_name_too_long())
    } else {
        Ok(t)
    }
}

/// Trims a participant name and checks that it is neither empty nor longer than 200 characters.
pub fn validate_participant_name(name: &str) -> (r: Result<String, String>)
    ensures
        crate::money::string_result_view(r) == participant_name_result(name@),
{
    let trimmed = str_trim(name);
    let cs = chars_of(trimmed);
    if cs.len() == 0 {
        return Err(owned("name must not be empty"));
    }
    if cs.len() > MAX_PARTICIPANT_NAME_LEN {
        return Err(owned("name is too long (max 200 characters)"));
    }
    Ok(owned(trimmed))
}

/// A sort order must not be negative.
pub fn validate_sort_order(sort_order: i64) -> (r: Result<(), String>)
    ensures
        r is Ok <==> sort_order >= 0,
        r matches Err(e) ==> e@ == msg_sort_order_negative(),
{
    if sort_order < 0 {
        Err(owned("sort_order must be non-negative"))
    } else {
        Ok(())
    }
}

/// The SQLite integer of a boolean.
pub fn sqlite_bool(value: bool) -> (r: i64)
    ensures
        r == (if value {
            1i64
        } else {
            0i64
        }),
{
    if value {
        1
    } else {
        0
    }
}

/// Number of participants marked as self among the first `n`.
pub open spec fn self_count_upto(ps: Seq<Participant>, n: nat) -> nat
    decreases n,
{
    if n == 0 {
        0
    } else {
        self_count_upto(ps, (n - 1) as nat) + if ps[n - 1].is_self {
            1nat
        } else {
            0nat
        }
    }
}

/// Head counts: known only when exactly one participant is marked as self.
pub open spec fn participant_counts_spec(ps: Seq<Participant>) -> ParticipantCounts {
    let n = ps.len();
    if self_count_upto(ps, n) == 1 {
        ParticipantCounts {
            registered_count: n as usize,
            participant_count: Some(n as usize),
            companion_count: Some((n - 1) as usize),
            self_known: true,
            participants_recorded: n > 0,
        }
    } else {
        ParticipantCounts {
            registered_count: n as usize,
            participant_count: None,
            companion_count: None,
            self_known: false,
            participants_recorded: n > 0,
        }
    }
}

proof fn lemma_self_count_bound(ps: Seq<Participant>, n: nat)
    requires
        n <= ps.len(),
    ensures
        self_count_upto(ps, n) <= n,
    decreases n,
{
    if n > 0 {
        lemma_self_count_bound(ps, (n - 1) as nat);
    }
}

proof fn lemma_one_self_count(ps: Seq<Participant>, me: int, k: nat)
    requires
        0 <= me < ps.len(),
        k <= ps.len(),
        ps[me].is_self,
        forall|j: int| 0 <= j < ps.len() && j != me ==> !(#[trigger] ps[j]).is_self,
    ensures
        self_count_upto(ps, k) == (if k > me {
            1nat
        } else {
            0nat
        }),
    decreases k,
{
    if k > 0 {
        lemma_one_self_count(ps, me, (k - 1) as nat);
    }
}

proof fn lemma_two_selves_count(ps: Seq<Participant>, a: int, b: int, k: nat)
    requires
        0 <= a < b < ps.len(),
        k <= ps.len(),
        ps[a].is_self && ps[b].is_self,
    ensures
        self_count_upto(ps, k) >= (if k > a {
            1nat
        } else {
            0nat
        }) + (if k > b {
            1nat
        } else {
            0nat
        }),
    decreases k,
{
    if k > 0 {
        lemma_two_selves_count(ps, a, b, (k - 1) as nat);
    }
}

proof fn lemma_no_self_count(ps: Seq<Participant>, k: nat)
    requires
        k <= ps.len(),
        forall|j: int| 0 <= j < ps.len() ==> !(#[trigger] ps[j]).is_self,
    ensures
        self_count_upto(ps, k) == 0,
    decreases k,
{
    if k > 0 {
        lemma_no_self_count(ps, (k - 1) as nat);
    }
}

/// With exactly one participant marked as self (`ps[me]`), everyone
/// registered travels and the companions are everyone else: one fewer than
/// the travellers.
pub proof fn lemma_counts_with_one_self(ps: Seq<Participant>, me: int)
    requires
        ps.len() <= usize::MAX,
        0 <= me < ps.len(),
        ps[me].is_self,
        forall|j: int| 0 <= j < ps.len() && j != me ==> !(#[trigger] ps[j]).is_self,
    ensures
        participant_counts_spec(ps).registered_count == ps.len(),
        participant_counts_spec(ps).participant_count == Some(ps.len() as usize),
        participant_counts_spec(ps).companion_count matches Some(c) && c + 1 == ps.len(),
        participant_counts_spec(ps).self_known,
        participant_counts_spec(ps).participants_recorded == (ps.len() > 0),
{
    lemma_one_self_count(ps, me, ps.len());
}

/// With no participant, or more than one, marked as self, neither the
/// travellers nor the companions are known.
pub proof fn lemma_counts_without_one_self(ps: Seq<Participant>, a: int, b: int)
    requires
        ps.len() <= usize::MAX,
        (forall|j: int| 0 <= j < ps.len() ==> !(#[trigger] ps[j]).is_self) || (0 <= a < b < ps.len()
            && ps[a].is_self && ps[b].is_self),
    ensures
        participant_counts_spec(ps).registered_count == ps.len(),
        participant_counts_spec(ps).participant_count is None,
        participant_counts_spec(ps).companion_count is None,
        !participant_counts_spec(ps).self_known,
        participant_counts_spec(ps).participants_recorded == (ps.len() > 0),
{
    if forall|j: int| 0 <= j < ps.len() ==> !(#[trigger] ps[j]).is_self {
        lemma_no_self_count(ps, ps.len());
    } else {
        lemma_two_selves_count(ps, a, b, ps.len());
    }
}

/// Counts registered participants and, when exactly one is self, the
/// travellers and companions.
pub fn compute_participant_counts(participants: &[Participant]) -> (r: ParticipantCounts)
    ensures
        r == participant_counts_spec(participants@),
{
    let n = participants.len();
    let mut self_count: usize = 0;
    let mut i: usize = 0;
    while i < n
        invariant
            n == participants@.len(),
            i <= n,
            self_count == self_count_upto(participants@, i as nat),
        decreases n - i,
    {
        proof {
            lemma_self_count_bound(participants@, (i + 1) as nat);
        }
        if participants[i].is_self {
            self_count = self_count + 1;
        }
        i = i + 1;
    }
    if self_count == 1 {
        ParticipantCounts {
            registered_count: n,
            participant_count: Some(n),
            companion_count: Some(n - 1),
            self_known: true,
            participants_recorded: n > 0,
        }
    } else {
        ParticipantCounts {
            registered_count: n,
            participant_count: None,
            companion_count: None,
            self_known: false,
            participants_recorded: n > 0,
        }
    }
}

/// The first problem of an export participant: its name, then its sort order.
pub open spec fn export_participant_error(p: ExportParticipantV4) -> Option<Seq<char>> {
    match participant_name_result(p.name@) {
        Err(e) => Some(e),
        Ok(_) => if p.sort_order < 0 {
            Some(msg_sort_order_negative())
        } else {
            None
        },
    }
}

/// Checks an export participant's name and sort order.
pub fn validate_export_participant_v4(participant: &ExportParticipantV4) -> (r: Result<(), String>)
    ensures
        r is Ok <==> export_participant_error(*participant) is None,
        r matches Err(e) ==> Some(e@) == export_participant_error(*participant),
{
    match validate_participant_name(participant.name.as_str()) {
        Err(e) => return Err(e),
        Ok(_) => {},
    }
    validate_sort_order(participant.sort_order)
}

pub open spec fn export_self_count_upto(ps: Seq<ExportParticipantV4>, n: nat) -> nat
    decreases n,
{
    if n == 0 {
        0
    } else {
        export_self_count_upto(ps, (n - 1) as nat) + if ps[n - 1].is_self {
            1nat
        } else {
            0nat
        }
    }
}

/// Per-participant errors of the first `n` entries.
pub open spec fn participant_errors_upto(ps: Seq<ExportParticipantV4>, n: nat) -> Seq<Seq<char>>
    decreases n,
{
    if n == 0 {
        Seq::empty()
    } else {
        participant_errors_upto(ps, (n - 1) as nat) + match export_participant_error(ps[n - 1]) {
            Some(e) => seq!["participants["@ + nat_decimal((n - 1) as nat) + "]: "@ + e],
            None => Seq::empty(),
        }
    }
}

/// All errors of an export's participant list, the "more than one self" error last.
pub open spec fn export_participant_errors(ps: Seq<ExportParticipantV4>) -> Seq<Seq<char>> {
    let self_count = export_self_count_upto(ps, ps.len());
    participant_errors_upto(ps, ps.len()) + if self_count > 1 {
        seq![
            "participants: only one is_self=true allowed per trip (found "@ + nat_decimal(self_count)
                + ")"@,
        ]
    } else {
        Seq::empty()
    }
}

proof fn lemma_export_self_count_bound(ps: Seq<ExportParticipantV4>, n: nat)
    requires
        n <= ps.len(),
    ensures
        export_self_count_upto(ps, n) <= n,
    decreases n,
{
    if n > 0 {
        lemma_export_self_count_bound(ps, (n - 1) as nat);
    }
}

/// Validation errors of the participants in an export.
pub fn collect_export_participant_validation_errors(participants: &[ExportParticipantV4]) -> (r: Vec<String>)
    ensures
        strings_view(r@) == export_participant_errors(participants@),
{
    let mut errors: Vec<String> = Vec::new();
    let n = participants.len();
    let mut self_count: usize = 0;
    let mut i: usize = 0;
    assert(strings_view(errors@) =~= Seq::empty());
    while i < n
        invariant
            n == participants@.len(),
            i <= n,
            self_count == export_self_count_upto(participants@, i as nat),
            strings_view(errors@) == participant_errors_upto(participants@, i as nat),
        decreases n - i,
    {
        proof {
            lemma_export_self_count_bound(participants@, (i + 1) as nat);
        }
        match validate_export_participant_v4(&participants[i]) {
            Err(e) => {
                let mut m = owned("participants[");
                push_u64_decimal(&mut m, i as u64);
                push_str(&mut m, "]: ");
                push_str(&mut m, e.as_str());
                push_string(&mut errors, m);
            },
            Ok(()) => {},
        }
        if participants[i].is_self {
            self_count = self_count + 1;
        }
        i = i + 1;
    }
    if self_count > 1 {
        let mut m = owned("participants: only one is_self=true allowed per trip (found ");
        push_u64_decimal(&mut m, self_count as u64);
        push_str(&mut m, ")");
        push_string(&mut errors, m);
    }
    assert(strings_view(errors@) =~= export_participant_errors(participants@));
    errors
}

} // verus!
