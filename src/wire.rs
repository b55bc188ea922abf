use vstd::prelude::*;

verus! {

/// The newline byte that ends every line on the wire.
pub const NEWLINE: u8 = 10;

/// The wrapping successor of a session identifier.
pub open spec fn successor(id: u16) -> u16 {
    ((id as int + 1) % 0x1_0000) as u16
}

/// Returns the identifier that follows `id`, wrapping from the largest value back to 0.
pub fn next_id(id: u16) -> (r: u16)
    ensures
        r == successor(id),
        id < u16::MAX ==> r == id + 1,
        id == u16::MAX ==> r == 0,
{
    id.wrapping_add(1)
}

/// The ASCII decimal digits of `n`, most significant first, without leading zeros.
pub open spec fn decimal(n: nat) -> Seq<u8>
    decreases n,
{
    if n < 10 {
        seq![(48 + n) as u8]
    } else {
        decimal(n / 10).push((48 + n % 10) as u8)
    }
}

/// `User#<id>`: how a session is named on the wire.
pub open spec fn user_tag(id: u16) -> Seq<u8> {
    // "User#"
    seq![85, 115, 101, 114, 35] + decimal(id as nat)
}

/// `Welcome User#<id>\n`: the greeting a session sends to its client.
pub open spec fn welcome_spec(id: u16) -> Seq<u8> {
    // "Welcome "
    seq![87, 101, 108, 99, 111, 109, 101, 32] + user_tag(id) + seq![NEWLINE]
}

/// `User#<id> disconnected!\n`: the notice published when a client closes.
pub open spec fn disconnect_spec(id: u16) -> Seq<u8> {
    // " disconnected!\n"
    user_tag(id) + seq![
        32, 100, 105, 115, 99, 111, 110, 110, 101, 99, 116, 101, 100, 33,
        NEWLINE
    ]
}

/// `User#<id>: `: what precedes a relayed line.
pub open spec fn chat_prefix(id: u16) -> Seq<u8> {
    // ": "
    user_tag(id) + seq![58, 32]
}

/// Whether `s` ends with a newline.
pub open spec fn ends_with_newline(s: Seq<u8>) -> bool {
    s.len() > 0 && s.last() == NEWLINE
}

/// `s` itself when it already ends with a newline, else `s` with one newline added.
pub open spec fn terminated(s: Seq<u8>) -> Seq<u8> {
    if ends_with_newline(s) {
        s
    } else {
        s.push(NEWLINE)
    }
}

/// `User#<id>: <data>`, terminated by a newline: the message published for a line read.
pub open spec fn chat_spec(id: u16, data: Seq<u8>) -> Seq<u8> {
    terminated(chat_prefix(id) + data)
}

/// Appends the decimal digits of `n` to `out`.
fn push_decimal(out: &mut Vec<u8>, n: u16)
    ensures
        final(out)@ == old(out)@ + decimal(n as nat),
    decreases n,
{
    if n < 10 {
        out.push(48 + n as u8);
    } else {
        push_decimal(out, n / 10);
        out.push(48 + (n % 10) as u8);
    }
}

/// Appends `User#<id>` to `out`.
fn push_user_tag(out: &mut Vec<u8>, id: u16)
    ensures
        final(out)@ == old(out)@ + user_tag(id),
{
    // "User#"
    let tag: [u8; 5] = [85, 115, 101, 114, 35];
    out.extend_from_slice(tag.as_slice());
    push_decimal(out, id);
    assert(final(out)@ =~= old(out)@ + user_tag(id));
}

/// Builds the greeting `Welcome User#<id>\n`.
pub fn welcome_line(id: u16) -> (r: Vec<u8>)
    ensures
        r@ == welcome_spec(id),
{
    let mut out: Vec<u8> = Vec::new();
    // "Welcome "
    let word: [u8; 8] = [87, 101, 108, 99, 111, 109, 101, 32];
    out.extend_from_slice(word.as_slice());
    push_user_tag(&mut out, id);
    out.push(NEWLINE);
    assert(out@ =~= welcome_spec(id));
    out
}

/// Builds the notice `User#<id> disconnected!\n`.
pub fn disconnect_notice(id: u16) -> (r: Vec<u8>)
    ensures
        r@ == disconnect_spec(id),
{
    let mut out: Vec<u8> = Vec::new();
    push_user_tag(&mut out, id);
    // " disconnected!\n"
    let rest: [u8; 15] = [32, 100, 105, 115, 99, 111, 110, 110, 101, 99, 116, 101, 100, 33, NEWLINE];
    out.extend_from_slice(rest.as_slice());
    assert(out@ =~= disconnect_spec(id));
    out
}

/// Builds the message relayed for a line `data` read from session `id`:
/// `User#<id>: <data>`, with a newline added unless `data` already ends with one.
pub fn chat_line(id: u16, data: &[u8]) -> (r: Vec<u8>)
    ensures
        r@ == chat_spec(id, data@),
        ends_with_newline(r@),
        ends_with_newline(data@) ==> r@ == chat_prefix(id) + data@,
        !ends_with_newline(data@) ==> r@ == (chat_prefix(id) + data@).push(NEWLINE),
{
    let mut out: Vec<u8> = Vec::new();
    push_user_tag(&mut out, id);
    out.push(58);
    out.push(32);
    out.extend_from_slice(data);
    assert(out@ =~= chat_prefix(id) + data@);
    let n: usize = out.len();
    if out[n - 1] != NEWLINE {
        out.push(NEWLINE);
    }
    out
}

} // verus!
