//! What holds of resolving and of the two exchanges, whatever the input.

use crate::api::{
    base_url, canonical_url, create_result, extract_spec, fetch_result, is_paste_rs_url_spec,
    is_success, is_url_spec, outcome_of, resolve, Outcome, PasteView, ReplyView,
};
use crate::error::PasteErrorView;
use crate::text::{has_prefix, lemma_prefix_split, lemma_short_has_none, occurs_at};
use vstd::prelude::*;

verus! {

/// The lengths of the texts that the rules look for.
pub proof fn lemma_marker_lengths()
    ensures
        "http://"@.len() == 7,
        "https://"@.len() == 8,
        "paste.rs"@.len() == 8,
        base_url().len() == 17,
        base_url() == "https://"@ + "paste.rs"@ + seq!['/'],
{
    reveal_strlit("http://");
    reveal_strlit("https://");
    reveal_strlit("paste.rs");
    reveal_strlit("https://paste.rs/");
    assert(base_url() =~= "https://"@ + "paste.rs"@ + seq!['/']);
}

/// An address of the service holds a scheme and the service's name, and
/// what follows the base address in it is the identifier.
pub proof fn lemma_canonical_url_shape(id: Seq<char>)
    ensures
        is_url_spec(canonical_url(id)),
        is_paste_rs_url_spec(canonical_url(id)),
        extract_spec(canonical_url(id)) == Some(id),
{
    lemma_marker_lengths();
    lemma_prefix_split(base_url(), id);
    let url = canonical_url(id);
    assert(url.subrange(0, 8) =~= "https://"@);
    assert(occurs_at(url, "https://"@, 0));
    assert(url.subrange(8, 16) =~= "paste.rs"@);
    assert(occurs_at(url, "paste.rs"@, 8));
}

/// Every text of three characters resolves to itself as the identifier.
pub proof fn lemma_bare_identifier_resolves(s: Seq<char>)
    requires
        s.len() == 3,
    ensures
        resolve(s) == Ok::<PasteView, PasteErrorView>(PasteView { id: s, outcome: None }),
{
    lemma_marker_lengths();
    lemma_short_has_none(s, "paste.rs"@);
}

/// An identifier of three characters and its address resolve to the same
/// reference.
pub proof fn lemma_url_and_identifier_agree(id: Seq<char>)
    requires
        id.len() == 3,
    ensures
        resolve(canonical_url(id)) == resolve(id),
{
    lemma_canonical_url_shape(id);
    lemma_bare_identifier_resolves(id);
}

/// The address of the service without its scheme resolves as the address
/// does, whatever follows the base address.
pub proof fn lemma_scheme_may_be_left_out(id: Seq<char>)
    requires
        !is_url_spec("paste.rs"@ + seq!['/'] + id),
    ensures
        resolve("paste.rs"@ + seq!['/'] + id) == resolve(canonical_url(id)),
{
    lemma_marker_lengths();
    lemma_canonical_url_shape(id);
    let short = "paste.rs"@ + seq!['/'] + id;
    assert(short.subrange(0, 8) =~= "paste.rs"@);
    assert(occurs_at(short, "paste.rs"@, 0));
    assert("https://"@ + short =~= canonical_url(id));
}

/// A paste that a create request made is read from the very address that
/// the service answered with.
pub proof fn lemma_created_paste_is_read_where_stored(status: u16, body: Seq<char>)
    ensures
        create_result(ReplyView::Response { status, body }) matches Ok(paste) ==> canonical_url(
            paste.id,
        ) == body,
{
    let n = base_url().len() as int;
    if has_prefix(body, base_url()) {
        assert(body.subrange(0, n) + body.skip(n) =~= body);
    }
}

/// A create request that succeeds always has its outcome, and only an
/// answer with status 201 or 206 makes it succeed.
pub proof fn lemma_created_paste_has_outcome(reply: ReplyView)
    ensures
        create_result(reply) matches Ok(paste) ==> {
            &&& reply matches ReplyView::Response { status, body }
            &&& paste.outcome is Some
            &&& paste.outcome == outcome_of(status)
            &&& (status == 201 || status == 206)
        },
{
}

/// An answer with status 206 whose body is an address of the service with
/// something after the base address gives a paste stored in part, under
/// what follows the base address, which is not empty.
pub proof fn lemma_partial_creation(body: Seq<char>)
    requires
        has_prefix(body, base_url()),
        body.len() > base_url().len(),
    ensures
        create_result(ReplyView::Response { status: 206, body }) == Ok::<
            PasteView,
            PasteErrorView,
        >(
            PasteView {
                id: body.skip(base_url().len() as int),
                outcome: Some(Outcome::PartiallyCreated),
            },
        ),
        body.skip(base_url().len() as int).len() > 0,
{
}

/// A fetch that the service answers without a success status, as it does
/// for an identifier that it does not know, ends in `RemoteError` with that
/// status and body.
pub proof fn lemma_unknown_paste_is_remote_error(status: u16, body: Seq<char>)
    requires
        !is_success(status),
    ensures
        fetch_result(ReplyView::Response { status, body }) == Err::<Seq<char>, PasteErrorView>(
            PasteErrorView::RemoteError { status, body },
        ),
{
}

} // verus!
