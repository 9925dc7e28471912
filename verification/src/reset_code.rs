//! Derivation of the short, human-typable password-reset code from a reset
//! token: the first three bytes of the token's digest, each rendered as
//! three zero-padded decimal digits, giving a fixed nine-digit code.

use vstd::prelude::*;
use vstd::string::StringSliceAdditionalSpecFns;

use sha2::Digest;

verus! {

/// What sha2::Sha256 computes over these bytes; the digest depends on the
/// input alone.
pub uninterp spec fn sha256_of(data: Seq<u8>) -> Seq<u8>;

/// Relies on sha2::Sha256::digest: the 32-byte digest of the input bytes.
#[verifier::external_body]
fn sha256_digest(data: &[u8]) -> (r: Vec<u8>)
    ensures
        r@ == sha256_of(data@),
        r@.len() == 32,
{
    sha2::Sha256::digest(data).to_vec()
}

/// Relies on String::push: appends one character.
pub assume_specification[ String::push ](s: &mut String, ch: char)
    ensures
        final(s)@ == old(s)@.push(ch),
;

/// The character for one decimal digit.
pub open spec fn digit_char(d: u8) -> char {
    (((d + 0x30) as u8) as char)
}

/// One byte as three zero-padded decimal digits.
pub open spec fn byte3(b: u8) -> Seq<char> {
    seq![digit_char(b / 100), digit_char((b / 10) % 10), digit_char(b % 10)]
}

/// The rendered code of a digest: its first three bytes, three digits each.
pub open spec fn render_code(digest: Seq<u8>) -> Seq<char> {
    byte3(digest[0]) + byte3(digest[1]) + byte3(digest[2])
}

/// The nine-digit code derived from a reset token's bytes.
pub open spec fn spec_reset_code(token_bytes: Seq<u8>) -> Seq<char> {
    render_code(sha256_of(token_bytes))
}

fn decimal_digit(d: u8) -> (c: char)
    requires
        d < 10,
    ensures
        c == digit_char(d),
{
    (d + 0x30) as char
}

fn push_byte_decimal(out: &mut String, b: u8)
    ensures
        final(out)@ == old(out)@ + byte3(b),
{
    out.push(decimal_digit(b / 100));
    out.push(decimal_digit((b / 10) % 10));
    out.push(decimal_digit(b % 10));
    proof {
        assert(out@ =~= old(out)@ + byte3(b));
    }
}

/// Derive the short code presented to the user for a password-reset token.
pub fn generate_reset_code(token: &str) -> (r: String)
    ensures
        r@ == spec_reset_code(token.spec_bytes()),
{
    let digest = sha256_digest(token.as_bytes());
    let mut code = String::new();
    push_byte_decimal(&mut code, digest[0]);
    push_byte_decimal(&mut code, digest[1]);
    push_byte_decimal(&mut code, digest[2]);
    proof {
        assert(code@ =~= spec_reset_code(token.spec_bytes()));
    }
    code
}

} // verus!
