use vstd::prelude::*;

use crate::encode::hex_digit;
use crate::encode::hex_digit_byte;
use vstd::utf8::is_ascii_chars;

verus! {

/// The bytes of an ASCII character sequence, one byte per character.
pub open spec fn ascii_bytes(cs: Seq<char>) -> Seq<u8> {
    Seq::new(cs.len(), |i: int| cs[i] as u8)
}

/// How one byte of a string appears inside a JSON string literal:
/// `"` and `\` get a backslash, a control byte becomes a `\u00XX`
/// escape with uppercase hex digits, every other byte stands as itself.
pub open spec fn escaped_byte(b: u8) -> Seq<u8> {
    if b == ('"' as u8) {
        seq![('\\' as u8), ('"' as u8)]
    } else if b == ('\\' as u8) {
        seq![('\\' as u8), ('\\' as u8)]
    } else if b < 0x20 {
        seq![('\\' as u8), ('u' as u8), ('0' as u8), ('0' as u8), hex_digit(b / 16), hex_digit(b % 16)]
    } else {
        seq![b]
    }
}

/// The body of a JSON string literal: every byte escaped in place.
pub open spec fn json_escape(s: Seq<u8>) -> Seq<u8>
    decreases s.len(),
{
    if s.len() == 0 {
        Seq::empty()
    } else {
        escaped_byte(s[0]) + json_escape(s.skip(1))
    }
}

/// A whole JSON string literal: the escaped bytes between two quotes.
pub open spec fn json_string(s: Seq<u8>) -> Seq<u8> {
    seq![('"' as u8)] + json_escape(s) + seq![('"' as u8)]
}

/// Unfolding step of `json_escape` at an inner position.
pub proof fn lemma_json_escape_step(s: Seq<u8>, i: int)
    requires
        0 <= i < s.len(),
    ensures
        json_escape(s.skip(i)) == escaped_byte(s[i]) + json_escape(s.skip(i + 1)),
{
    assert(s.skip(i).len() > 0);
    assert(s.skip(i)[0] == s[i]);
    assert(s.skip(i).skip(1) =~= s.skip(i + 1));
}

/// Appends the bytes of an ASCII string to `out`.
pub fn push_ascii(out: &mut Vec<u8>, s: &str)
    requires
        is_ascii_chars(s@),
    ensures
        final(out)@ == old(out)@ + ascii_bytes(s@),
{
    let b: &[u8] = s.as_bytes();
    proof {
        vstd::utf8::is_ascii_chars_encode_utf8(s@);
        assert(b@ =~= ascii_bytes(s@));
    }
    out.extend_from_slice(b);
}

/// Appends the JSON escaping of `s` to `out`.
pub fn json_escape_into(out: &mut Vec<u8>, s: &[u8])
    ensures
        final(out)@ == old(out)@ + json_escape(s@),
{
    let ghost orig: Seq<u8> = out@;
    let mut i: usize = 0;
    proof {
        assert(s@.skip(0) =~= s@);
    }
    while i < s.len()
        invariant
            i <= s@.len(),
            out@ + json_escape(s@.skip(i as int)) == orig + json_escape(s@),
        decreases s@.len() - i,
    {
        proof {
            lemma_json_escape_step(s@, i as int);
        }
        let ghost before: Seq<u8> = out@;
        let b = s[i];
        if b == ('"' as u8) {
            out.push('\\' as u8);
            out.push('"' as u8);
        } else if b == ('\\' as u8) {
            out.push('\\' as u8);
            out.push('\\' as u8);
        } else if b < 0x20 {
            out.push('\\' as u8);
            out.push('u' as u8);
            out.push('0' as u8);
            out.push('0' as u8);
            out.push(hex_digit_byte(b / 16));
            out.push(hex_digit_byte(b % 16));
        } else {
            out.push(b);
        }
        assert(out@ =~= before + escaped_byte(b));
        assert(out@ + json_escape(s@.skip(i as int + 1)) =~= orig + json_escape(s@));
        i = i + 1;
    }
    assert(s@.skip(s@.len() as int) =~= Seq::<u8>::empty());
    assert(out@ =~= out@ + json_escape(s@.skip(s@.len() as int)));
}

/// Appends a whole JSON string literal holding `s` to `out`.
pub fn json_string_into(out: &mut Vec<u8>, s: &[u8])
    ensures
        final(out)@ == old(out)@ + json_string(s@),
{
    let ghost orig: Seq<u8> = out@;
    out.push('"' as u8);
    json_escape_into(out, s);
    out.push('"' as u8);
    assert(out@ =~= orig + json_string(s@));
}

/// The login request body: a JSON object holding the username and the
/// password, in that order.
pub open spec fn login_body(user: Seq<u8>, password: Seq<u8>) -> Seq<u8> {
    ascii_bytes("{\"username\":"@) + json_string(user) + ascii_bytes(",\"password\":"@)
        + json_string(password) + ascii_bytes("}"@)
}

/// A JSON boolean.
pub open spec fn json_bool(b: bool) -> Seq<u8> {
    if b {
        ascii_bytes("true"@)
    } else {
        ascii_bytes("false"@)
    }
}

/// The JSON object describing a project: its display name and its
/// enabled and visible flags.
pub open spec fn project_config_json(displayname: Seq<u8>, enabled: bool, visible: bool) -> Seq<
    u8,
> {
    ascii_bytes("{\"displayname\":"@) + json_string(displayname) + ascii_bytes(",\"enabled\":"@)
        + json_bool(enabled) + ascii_bytes(",\"visible\":"@) + json_bool(visible) + ascii_bytes(
        "}"@,
    )
}

/// The project request body: the record for a project named after
/// itself, enabled and visible.
pub open spec fn project_body(project: Seq<u8>) -> Seq<u8> {
    project_config_json(project, true, true)
}

/// The record the provisioner submits for a project: a display name,
/// and the enabled and visible flags — both always true when this flow
/// constructs the record.
pub struct ProjectConfig {
    pub displayname: Vec<u8>,
    pub enabled: bool,
    pub visible: bool,
}

impl ProjectConfig {
    /// The record for one project: shown under its own name, enabled
    /// and visible.
    pub fn for_project(project: &[u8]) -> (r: ProjectConfig)
        ensures
            r.displayname@ == project@,
            r.enabled,
            r.visible,
    {
        ProjectConfig {
            displayname: vstd::slice::slice_to_vec(project),
            enabled: true,
            visible: true,
        }
    }

    /// Serializes the record as its JSON object.
    pub fn to_json(&self) -> (r: Vec<u8>)
        ensures
            r@ == project_config_json(self.displayname@, self.enabled, self.visible),
    {
        let mut out: Vec<u8> = Vec::new();
        proof {
            reveal_strlit("{\"displayname\":");
            reveal_strlit(",\"enabled\":");
            reveal_strlit(",\"visible\":");
            reveal_strlit("true");
            reveal_strlit("false");
            reveal_strlit("}");
        }
        push_ascii(&mut out, "{\"displayname\":");
        json_string_into(&mut out, self.displayname.as_slice());
        push_ascii(&mut out, ",\"enabled\":");
        if self.enabled {
            push_ascii(&mut out, "true");
        } else {
            push_ascii(&mut out, "false");
        }
        push_ascii(&mut out, ",\"visible\":");
        if self.visible {
            push_ascii(&mut out, "true");
        } else {
            push_ascii(&mut out, "false");
        }
        push_ascii(&mut out, "}");
        assert(out@ =~= project_config_json(self.displayname@, self.enabled, self.visible));
        out
    }
}

/// Builds the login request body for the given credentials.
pub fn login_body_bytes(user: &[u8], password: &[u8]) -> (r: Vec<u8>)
    ensures
        r@ == login_body(user@, password@),
{
    let mut out: Vec<u8> = Vec::new();
    proof {
        reveal_strlit("{\"username\":");
        reveal_strlit(",\"password\":");
        reveal_strlit("}");
    }
    push_ascii(&mut out, "{\"username\":");
    json_string_into(&mut out, user);
    push_ascii(&mut out, ",\"password\":");
    json_string_into(&mut out, password);
    push_ascii(&mut out, "}");
    assert(out@ =~= login_body(user@, password@));
    out
}

/// Builds the project request body for the given project name: the
/// freshly constructed record, serialized.
pub fn project_body_bytes(project: &[u8]) -> (r: Vec<u8>)
    ensures
        r@ == project_body(project@),
{
    let record = ProjectConfig::for_project(project);
    record.to_json()
}

} // verus!
