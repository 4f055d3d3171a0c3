//! The text form of the RPC addresses of a node's services: `grpc://` and an
//! address or a socket path, or `mem` for an in-process channel, which has no
//! text form that can be read back.
use vstd::prelude::*;
use vstd::string::*;
use crate::text_order::same_text;

verus! {

/// `s` holds the separator `://` at position `i`.
pub open spec fn sep_at(s: Seq<char>, i: int) -> bool {
    0 <= i && i + 3 <= s.len() && s[i] == ':' && s[i + 1] == '/' && s[i + 2] == '/'
}

/// Where the first separator at or after `i` begins, or the length of `s`
/// where there is none.
pub open spec fn next_sep(s: Seq<char>, i: int) -> int
    decreases s.len() - i,
{
    if i < 0 || i + 3 > s.len() {
        s.len() as int
    } else if sep_at(s, i) {
        i
    } else {
        next_sep(s, i + 1)
    }
}

/// What an address text stands for, as far as its text decides; a `grpc`
/// address is a socket address where its part parses as one, else a socket
/// path.
#[derive(Debug, PartialEq, Eq)]
pub enum AddrText {
    /// `mem`: in-process channels cannot be written down or read back.
    Mem,
    /// `grpc://` and this part: the text up to the next `://`, or to the end.
    Grpc(String),
    /// Anything else.
    Invalid,
}

/// What `s` stands for: `mem`; or, where the text before the first `://` is
/// `grpc`, the part that follows it up to the next `://`; else nothing.
pub open spec fn addr_text_of(s: Seq<char>, r: AddrText) -> bool {
    let p = next_sep(s, 0);
    if s == "mem"@ {
        r is Mem
    } else if p < s.len() && s.subrange(0, p) == "grpc"@ {
        r matches AddrText::Grpc(part) && part@ == s.subrange(p + 3, next_sep(s, p + 3))
    } else {
        r is Invalid
    }
}

/// Where the first separator at or after `from` begins in `s`, or its length.
fn find_sep(s: &str, from: usize) -> (r: usize)
    requires
        from <= s@.len(),
    ensures
        r == next_sep(s@, from as int),
        from <= r <= s@.len(),
        r < s@.len() ==> r + 3 <= s@.len(),
{
    let n = s.unicode_len();
    let mut i = from;
    while n - i >= 3
        invariant
            n == s@.len(),
            from <= i <= n,
            next_sep(s@, i as int) == next_sep(s@, from as int),
        decreases n - i,
    {
        if s.get_char(i) == ':' && s.get_char(i + 1) == '/' && s.get_char(i + 2) == '/' {
            return i;
        }
        i = i + 1;
    }
    n
}

/// Reads what an address text stands for, as the text decides it.
pub fn classify_addr(s: &str) -> (r: AddrText)
    ensures
        addr_text_of(s@, r),
{
    if same_text(s, "mem") {
        return AddrText::Mem;
    }
    let n = s.unicode_len();
    let p = find_sep(s, 0);
    if p == n {
        return AddrText::Invalid;
    }
    let prefix = s.substring_char(0, p);
    if !same_text(prefix, "grpc") {
        return AddrText::Invalid;
    }
    let end = find_sep(s, p + 3);
    let part = s.substring_char(p + 3, end);
    AddrText::Grpc(part.to_owned())
}

/// The message for a text that reads as no address: `mem` cannot be read
/// back, and any other text is quoted.
pub open spec fn addr_error_text(s: Seq<char>) -> Seq<char> {
    if s == "mem"@ {
        "memory addresses can not be serialized or deserialized"@
    } else {
        "invalid addr: "@ + s
    }
}

/// The message for `s` where it reads as no address.
pub fn addr_error(s: &str) -> (r: String)
    ensures
        r@ == addr_error_text(s@),
{
    if same_text(s, "mem") {
        "memory addresses can not be serialized or deserialized".to_owned()
    } else {
        let mut m = "invalid addr: ".to_owned();
        m.append(s);
        m
    }
}

/// The text form of a `grpc` address whose part is shown as `shown`.
pub fn grpc_addr_text(shown: &str) -> (r: String)
    ensures
        r@ == "grpc://"@ + shown@,
{
    let mut s = "grpc://".to_owned();
    s.append(shown);
    s
}

/// Searching the end of `a + b` is searching `b`.
proof fn lemma_next_sep_shift(a: Seq<char>, b: Seq<char>, i: int)
    requires
        0 <= i,
    ensures
        next_sep(a + b, a.len() + i) == a.len() + next_sep(b, i),
    decreases b.len() - i,
{
    let s = a + b;
    if i + 3 <= b.len() {
        assert(sep_at(s, a.len() + i) == sep_at(b, i));
        if !sep_at(b, i) {
            lemma_next_sep_shift(a, b, i + 1);
        }
    }
}

/// The text of a `grpc` address reads back as that address, where its part
/// holds no separator.
pub proof fn lemma_grpc_text_roundtrip(part: Seq<char>, r: AddrText)
    requires
        next_sep(part, 0) == part.len(),
    ensures
        addr_text_of("grpc://"@ + part, r) <==> (r matches AddrText::Grpc(q) && q@ == part),
{
    reveal_strlit("grpc://");
    reveal_strlit("grpc");
    reveal_strlit("mem");
    let s = "grpc://"@ + part;
    assert(!sep_at(s, 0));
    assert(!sep_at(s, 1));
    assert(!sep_at(s, 2));
    assert(!sep_at(s, 3));
    assert(sep_at(s, 4));
    assert(s.len() >= 7);
    assert(next_sep(s, 4) == 4);
    assert(next_sep(s, 3) == 4);
    assert(next_sep(s, 2) == 4);
    assert(next_sep(s, 1) == 4);
    assert(next_sep(s, 0) == 4);
    assert(s.subrange(0, 4) =~= "grpc"@);
    assert(s != "mem"@) by {
        if s == "mem"@ {
            assert(s[0] == "mem"@[0]);
        }
    }
    lemma_next_sep_shift("grpc://"@, part, 0);
    assert(s.subrange(7, s.len() as int) =~= part);
}

} // verus!
