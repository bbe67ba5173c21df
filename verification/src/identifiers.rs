//! Matrix identifiers and host names, as the crates `ruma_identifiers` and `url` read them.
//!
//! The library carries identifiers as text. What only those crates can tell of a text is
//! asked here, through functions whose contracts are taken on trust.

use vstd::prelude::*;

verus! {

/// Whether `ruma_identifiers` accepts `id` as a Matrix user id.
pub uninterp spec fn user_id_accepted(id: Seq<char>) -> bool;

/// Whether `ruma_identifiers` accepts `id` as a Matrix room id.
pub uninterp spec fn room_id_accepted(id: Seq<char>) -> bool;

/// The host that `url` reads from `input`, written out again; `None` where it reads none.
pub uninterp spec fn host_normal_form(input: Seq<char>) -> Option<Seq<char>>;

/// The index of the first `c` in `s` at or after `from`; the length of `s` where there is none.
pub open spec fn first_index_from(s: Seq<char>, c: char, from: int) -> int
    decreases s.len() - from,
{
    if from < 0 || from >= s.len() {
        s.len() as int
    } else if s[from] == c {
        from
    } else {
        first_index_from(s, c, from + 1)
    }
}

/// Where no character from `from` up to `at` is `c`, and the character at `at` is `c` or
/// `at` is the length, the first `c` from `from` on stands at `at`.
pub proof fn lemma_first_index_from(s: Seq<char>, c: char, from: int, at: int)
    requires
        0 <= from <= at <= s.len(),
        forall|j: int| from <= j < at ==> s[j] != c,
        at < s.len() ==> s[at] == c,
    ensures
        first_index_from(s, c, from) == at,
    decreases at - from,
{
    if from < at {
        lemma_first_index_from(s, c, from + 1, at);
    }
}

/// The index of the first `c` in `s`; the length of `s` where there is none.
pub open spec fn first_index(s: Seq<char>, c: char) -> int {
    first_index_from(s, c, 0)
}

/// What follows the first colon of `id`: the server name of an identifier.
pub open spec fn server_name_of(id: Seq<char>) -> Seq<char> {
    id.skip(first_index(id, ':') + 1)
}

/// The host of a server name: an address in square brackets up to the closing bracket,
/// else what stands before the colon of the port, else all of it.
pub open spec fn host_of(server_name: Seq<char>) -> Seq<char> {
    if first_index(server_name, ']') < server_name.len() {
        server_name.take(first_index(server_name, ']') + 1)
    } else {
        server_name.take(first_index(server_name, ':'))
    }
}

/// Asks `ruma_identifiers::UserId::parse` whether `id` is a Matrix user id. The contract
/// claims that the answer depends on the characters of `id` alone.
#[verifier::external_body]
pub(crate) fn user_id_is_valid(id: &str) -> (ok: bool)
    ensures
        ok == user_id_accepted(id@),
{
    ruma_identifiers::UserId::parse(id).is_ok()
}

/// Reads the host of a room id with `ruma_identifiers`: `RoomId::parse`, then
/// `server_name` and `host`. The contract claims that a host comes back for just the ids
/// that `parse` accepts, and that it is the host of what follows the id's first colon.
#[verifier::external_body]
pub(crate) fn room_id_host(id: &str) -> (host: Option<String>)
    ensures
        (host is Some) == room_id_accepted(id@),
        host matches Some(h) ==> h@ == host_of(server_name_of(id@)),
{
    match ruma_identifiers::RoomId::parse(id) {
        Ok(room_id) => Some(room_id.server_name().host().to_owned()),
        Err(_) => None,
    }
}

/// Reads `input` as a host with `url::Host::parse`, as `iron` hands it on, and writes the
/// host out again. The contract claims that the result depends on the characters of
/// `input` alone.
#[verifier::external_body]
pub(crate) fn normalize_host(input: &str) -> (host: Option<String>)
    ensures
        host.deep_view() == host_normal_form(input@),
{
    match iron::url::Host::parse(input) {
        Ok(host) => Some(host.to_string()),
        Err(_) => None,
    }
}

} // verus!
