use vstd::prelude::*;

verus! {

/// Whether a codepage name can be handed to the transcoder: it must hold no
/// NUL character, since the transcoder builds a C string from it.
pub open spec fn nul_free(s: Seq<char>) -> bool {
    forall|i: int| 0 <= i < s.len() ==> s[i] != '\0'
}

/// What the text transcoder produces for `text` under the codepage named
/// `codepage`: the encoded bytes, or nothing when some character has no
/// representation there or the codepage name is unknown.  The outcome is a
/// function of the two arguments alone.
pub uninterp spec fn transcoded(text: Seq<char>, codepage: Seq<char>) -> Option<Seq<u8>>;

/// Relies on iconv::encode: transcodes UTF-8 text into the byte encoding
/// named by `codepage`, and fails when a character has no representation
/// there or the codepage name is not recognised.  The codepage name must be
/// free of NUL characters: the call turns it into a C string and does not
/// return otherwise.
#[verifier::external_body]
pub(crate) fn encode_text(text: &str, codepage: &str) -> (r: Option<Vec<u8>>)
    requires
        nul_free(codepage@),
    ensures
        r is Some <==> transcoded(text@, codepage@) is Some,
        r matches Some(v) ==> transcoded(text@, codepage@) == Some(v@),
{
    iconv::encode(text, codepage).ok()
}

} // verus!
