use vstd::prelude::*;

use crate::commands::Command;

verus! {

/// The keys that commands use in their CBOR maps.
pub enum Key {
    Cmd,
    Nonce,
    Epubkey,
    Xcvc,
    Path,
    Slot,
    ChainCode,
}

/// The ASCII text of a key.
pub open spec fn key_text(k: Key) -> Seq<u8> {
    match k {
        Key::Cmd => seq![0x63u8, 0x6du8, 0x64u8],
        Key::Nonce => seq![0x6eu8, 0x6fu8, 0x6eu8, 0x63u8, 0x65u8],
        Key::Epubkey => seq![0x65u8, 0x70u8, 0x75u8, 0x62u8, 0x6bu8, 0x65u8, 0x79u8],
        Key::Xcvc => seq![0x78u8, 0x63u8, 0x76u8, 0x63u8],
        Key::Path => seq![0x70u8, 0x61u8, 0x74u8, 0x68u8],
        Key::Slot => seq![0x73u8, 0x6cu8, 0x6fu8, 0x74u8],
        Key::ChainCode => seq![0x63u8, 0x68u8, 0x61u8, 0x69u8, 0x6eu8, 0x5fu8, 0x63u8, 0x6fu8, 0x64u8, 0x65u8],
    }
}

/// The ASCII text of a command's name, the value of its `cmd` key.
pub open spec fn name_text(cmd: Command) -> Seq<u8> {
    match cmd {
        Command::Status => seq![0x73u8, 0x74u8, 0x61u8, 0x74u8, 0x75u8, 0x73u8],
        Command::Read { .. } => seq![0x72u8, 0x65u8, 0x61u8, 0x64u8],
        Command::Derive { .. } => seq![0x64u8, 0x65u8, 0x72u8, 0x69u8, 0x76u8, 0x65u8],
        Command::Certs => seq![0x63u8, 0x65u8, 0x72u8, 0x74u8, 0x73u8],
        Command::Check { .. } => seq![0x63u8, 0x68u8, 0x65u8, 0x63u8, 0x6bu8],
        Command::New { .. } => seq![0x6eu8, 0x65u8, 0x77u8],
        Command::Unseal { .. } => seq![0x75u8, 0x6eu8, 0x73u8, 0x65u8, 0x61u8, 0x6cu8],
        Command::Dump { .. } => seq![0x64u8, 0x75u8, 0x6du8, 0x70u8],
        Command::Wait { .. } => seq![0x77u8, 0x61u8, 0x69u8, 0x74u8],
    }
}

/// The head of a CBOR item: major type in the top three bits, then the
/// argument in the shortest form (in the low five bits below 24, else in the
/// 1, 2, 4 or 8 big-endian bytes that follow).
pub open spec fn head(major: u8, n: u64) -> Seq<u8> {
    let m = major as int * 32;
    if n < 24 {
        seq![(m + n) as u8]
    } else if n < 0x100 {
        seq![(m + 24) as u8, n as u8]
    } else if n < 0x1_0000 {
        seq![(m + 25) as u8, (n / 0x100) as u8, (n % 0x100) as u8]
    } else if n < 0x1_0000_0000 {
        seq![
            (m + 26) as u8,
            (n / 0x100_0000) as u8,
            ((n / 0x1_0000) % 0x100) as u8,
            ((n / 0x100) % 0x100) as u8,
            (n % 0x100) as u8,
        ]
    } else {
        seq![
            (m + 27) as u8,
            (n / 0x100_0000_0000_0000) as u8,
            ((n / 0x1_0000_0000_0000) % 0x100) as u8,
            ((n / 0x100_0000_0000) % 0x100) as u8,
            ((n / 0x1_0000_0000) % 0x100) as u8,
            ((n / 0x100_0000) % 0x100) as u8,
            ((n / 0x1_0000) % 0x100) as u8,
            ((n / 0x100) % 0x100) as u8,
            (n % 0x100) as u8,
        ]
    }
}

/// An unsigned integer.
pub open spec fn cbor_uint(n: u64) -> Seq<u8> {
    head(0, n)
}

/// A byte string.
pub open spec fn cbor_bytes(b: Seq<u8>) -> Seq<u8> {
    head(2, b.len() as u64) + b
}

/// A text string.
pub open spec fn cbor_text(t: Seq<u8>) -> Seq<u8> {
    head(3, t.len() as u64) + t
}

/// The items of an array of unsigned integers, one after the other.
pub open spec fn cbor_uints(p: Seq<u32>) -> Seq<u8>
    decreases p.len(),
{
    if p.len() == 0 {
        Seq::empty()
    } else {
        cbor_uints(p.drop_last()) + cbor_uint(p.last() as u64)
    }
}

/// An array of unsigned integers.
pub open spec fn cbor_path(p: Seq<u32>) -> Seq<u8> {
    head(4, p.len() as u64) + cbor_uints(p)
}

/// One key and value of a map.
pub open spec fn entry(k: Key, value: Seq<u8>) -> Seq<u8> {
    cbor_text(key_text(k)) + value
}

/// A byte-string entry when the value is there, nothing otherwise.
pub open spec fn opt_bytes_entry(k: Key, v: Option<Vec<u8>>) -> Seq<u8> {
    match v {
        Some(b) => entry(k, cbor_bytes(b@)),
        None => Seq::empty(),
    }
}

/// Number of entries an optional value contributes.
pub open spec fn opt_count<A>(v: Option<A>) -> u64 {
    if v is Some {
        1
    } else {
        0
    }
}

/// The entries of a command's map, in order: `cmd` first, then its fields.
pub open spec fn command_body(cmd: Command) -> Seq<u8> {
    let name = entry(Key::Cmd, cbor_text(name_text(cmd)));
    match cmd {
        Command::Status => name,
        Command::Certs => name,
        Command::Read { nonce, epubkey, xcvc } => name + entry(Key::Nonce, cbor_bytes(nonce@))
            + opt_bytes_entry(Key::Epubkey, epubkey) + opt_bytes_entry(Key::Xcvc, xcvc),
        Command::Derive { nonce, path, epubkey, xcvc } => name + entry(
            Key::Nonce,
            cbor_bytes(nonce@),
        ) + match path {
            Some(p) => entry(Key::Path, cbor_path(p@)),
            None => Seq::empty(),
        } + opt_bytes_entry(Key::Epubkey, epubkey) + opt_bytes_entry(Key::Xcvc, xcvc),
        Command::Check { nonce } => name + entry(Key::Nonce, cbor_bytes(nonce@)),
        Command::New { slot, chain_code, epubkey, xcvc } => name + entry(
            Key::Slot,
            cbor_uint(slot as u64),
        ) + opt_bytes_entry(Key::ChainCode, chain_code) + entry(Key::Epubkey, cbor_bytes(epubkey@))
            + entry(Key::Xcvc, cbor_bytes(xcvc@)),
        Command::Unseal { slot, epubkey, xcvc } => name + entry(Key::Slot, cbor_uint(slot as u64))
            + entry(Key::Epubkey, cbor_bytes(epubkey@)) + entry(Key::Xcvc, cbor_bytes(xcvc@)),
        Command::Dump { slot, epubkey, xcvc } => name + entry(Key::Slot, cbor_uint(slot as u64))
            + opt_bytes_entry(Key::Epubkey, epubkey) + opt_bytes_entry(Key::Xcvc, xcvc),
        Command::Wait { epubkey, xcvc } => name + opt_bytes_entry(Key::Epubkey, epubkey)
            + opt_bytes_entry(Key::Xcvc, xcvc),
    }
}

/// How many entries a command's map has.
pub open spec fn command_count(cmd: Command) -> u64 {
    match cmd {
        Command::Status => 1,
        Command::Certs => 1,
        Command::Read { nonce, epubkey, xcvc } => (2 + opt_count(epubkey) + opt_count(xcvc)) as u64,
        Command::Derive { nonce, path, epubkey, xcvc } => (2 + opt_count(path) + opt_count(epubkey)
            + opt_count(xcvc)) as u64,
        Command::Check { nonce } => 2,
        Command::New { slot, chain_code, epubkey, xcvc } => (4 + opt_count(chain_code)) as u64,
        Command::Unseal { .. } => 4,
        Command::Dump { slot, epubkey, xcvc } => (2 + opt_count(epubkey) + opt_count(xcvc)) as u64,
        Command::Wait { epubkey, xcvc } => (1 + opt_count(epubkey) + opt_count(xcvc)) as u64,
    }
}

/// The CBOR encoding of a command: a map with text keys.
pub open spec fn cbor_command(cmd: Command) -> Seq<u8> {
    head(5, command_count(cmd)) + command_body(cmd)
}

/// The text of a key.
pub fn key(k: Key) -> (r: Vec<u8>)
    ensures
        r@ == key_text(k),
{
    let r = match k {
        Key::Cmd => vec![0x63, 0x6d, 0x64],
        Key::Nonce => vec![0x6e, 0x6f, 0x6e, 0x63, 0x65],
        Key::Epubkey => vec![0x65, 0x70, 0x75, 0x62, 0x6b, 0x65, 0x79],
        Key::Xcvc => vec![0x78, 0x63, 0x76, 0x63],
        Key::Path => vec![0x70, 0x61, 0x74, 0x68],
        Key::Slot => vec![0x73, 0x6c, 0x6f, 0x74],
        Key::ChainCode => vec![0x63, 0x68, 0x61, 0x69, 0x6e, 0x5f, 0x63, 0x6f, 0x64, 0x65],
    };
    proof {
        assert(r@ =~= key_text(k));
    }
    r
}

/// The text of a command's name.
pub fn name(cmd: &Command) -> (r: Vec<u8>)
    ensures
        r@ == name_text(*cmd),
{
    let r = match cmd {
        Command::Status => vec![0x73, 0x74, 0x61, 0x74, 0x75, 0x73],
        Command::Read { .. } => vec![0x72, 0x65, 0x61, 0x64],
        Command::Derive { .. } => vec![0x64, 0x65, 0x72, 0x69, 0x76, 0x65],
        Command::Certs => vec![0x63, 0x65, 0x72, 0x74, 0x73],
        Command::Check { .. } => vec![0x63, 0x68, 0x65, 0x63, 0x6b],
        Command::New { .. } => vec![0x6e, 0x65, 0x77],
        Command::Unseal { .. } => vec![0x75, 0x6e, 0x73, 0x65, 0x61, 0x6c],
        Command::Dump { .. } => vec![0x64, 0x75, 0x6d, 0x70],
        Command::Wait { .. } => vec![0x77, 0x61, 0x69, 0x74],
    };
    proof {
        assert(r@ =~= name_text(*cmd));
    }
    r
}

/// Appends the head of an item with major type `major` and argument `n`.
pub fn push_head(out: &mut Vec<u8>, major: u8, n: u64)
    requires
        major < 8,
    ensures
        final(out)@ == old(out)@ + head(major, n),
{
    let m: u8 = major * 32;
    let ghost start = out@;
    if n < 24 {
        out.push(m + n as u8);
    } else if n < 0x100 {
        out.push(m + 24);
        out.push(n as u8);
    } else if n < 0x1_0000 {
        out.push(m + 25);
        out.push((n / 0x100) as u8);
        out.push((n % 0x100) as u8);
    } else if n < 0x1_0000_0000 {
        out.push(m + 26);
        out.push((n / 0x100_0000) as u8);
        out.push(((n / 0x1_0000) % 0x100) as u8);
        out.push(((n / 0x100) % 0x100) as u8);
        out.push((n % 0x100) as u8);
    } else {
        out.push(m + 27);
        out.push((n / 0x100_0000_0000_0000) as u8);
        out.push(((n / 0x1_0000_0000_0000) % 0x100) as u8);
        out.push(((n / 0x100_0000_0000) % 0x100) as u8);
        out.push(((n / 0x1_0000_0000) % 0x100) as u8);
        out.push(((n / 0x100_0000) % 0x100) as u8);
        out.push(((n / 0x1_0000) % 0x100) as u8);
        out.push(((n / 0x100) % 0x100) as u8);
        out.push((n % 0x100) as u8);
    }
    assert(out@ =~= start + head(major, n));
}

/// Appends a byte string.
pub fn push_bytes(out: &mut Vec<u8>, b: &[u8])
    ensures
        final(out)@ == old(out)@ + cbor_bytes(b@),
{
    push_head(out, 2, b.len() as u64);
    crate::bytes::append_bytes(out, b);
    assert(final(out)@ =~= old(out)@ + cbor_bytes(b@));
}

/// Appends one map entry: the key as text, then the value's encoding.
pub fn push_key(out: &mut Vec<u8>, k: Key)
    ensures
        final(out)@ == old(out)@ + cbor_text(key_text(k)),
{
    let t = key(k);
    push_head(out, 3, t.len() as u64);
    crate::bytes::append_bytes(out, t.as_slice());
    assert(final(out)@ =~= old(out)@ + cbor_text(key_text(k)));
}

/// Appends a byte-string entry.
pub fn push_bytes_entry(out: &mut Vec<u8>, k: Key, b: &[u8])
    ensures
        final(out)@ == old(out)@ + entry(k, cbor_bytes(b@)),
{
    let ghost k0 = k;
    push_key(out, k);
    push_bytes(out, b);
    assert(final(out)@ =~= old(out)@ + entry(k0, cbor_bytes(b@)));
}

/// Appends a byte-string entry when the value is there.
pub fn push_opt_bytes_entry(out: &mut Vec<u8>, k: Key, v: &Option<Vec<u8>>)
    ensures
        final(out)@ == old(out)@ + opt_bytes_entry(k, *v),
{
    match v {
        Some(b) => push_bytes_entry(out, k, b.as_slice()),
        None => {
            assert(out@ =~= old(out)@ + opt_bytes_entry(k, *v));
        },
    }
}

/// Appends an unsigned-integer entry.
pub fn push_uint_entry(out: &mut Vec<u8>, k: Key, n: u64)
    ensures
        final(out)@ == old(out)@ + entry(k, cbor_uint(n)),
{
    let ghost k0 = k;
    push_key(out, k);
    push_head(out, 0, n);
    assert(final(out)@ =~= old(out)@ + entry(k0, cbor_uint(n)));
}

/// Appends an array of unsigned integers.
pub fn push_path(out: &mut Vec<u8>, p: &[u32])
    ensures
        final(out)@ == old(out)@ + cbor_path(p@),
{
    push_head(out, 4, p.len() as u64);
    let ghost start = out@;
    let mut i: usize = 0;
    while i < p.len()
        invariant
            i <= p@.len(),
            out@ == start + cbor_uints(p@.subrange(0, i as int)),
        decreases p@.len() - i,
    {
        push_head(out, 0, p[i] as u64);
        proof {
            let s = p@.subrange(0, i as int + 1);
            assert(s.drop_last() =~= p@.subrange(0, i as int));
        }
        i = i + 1;
        assert(out@ =~= start + cbor_uints(p@.subrange(0, i as int)));
    }
    assert(p@.subrange(0, i as int) =~= p@);
    assert(final(out)@ =~= old(out)@ + cbor_path(p@));
}

/// Encodes a command as the CBOR map the card reads.
pub fn encode_command(cmd: &Command) -> (r: Vec<u8>)
    ensures
        r@ == cbor_command(*cmd),
{
    let mut body: Vec<u8> = Vec::new();
    push_key(&mut body, Key::Cmd);
    let nm = name(cmd);
    push_head(&mut body, 3, nm.len() as u64);
    crate::bytes::append_bytes(&mut body, nm.as_slice());
    assert(body@ =~= entry(Key::Cmd, cbor_text(name_text(*cmd))));
    let count: u64 = match cmd {
        Command::Status => 1,
        Command::Certs => 1,
        Command::Read { nonce, epubkey, xcvc } => {
            push_bytes_entry(&mut body, Key::Nonce, nonce.as_slice());
            push_opt_bytes_entry(&mut body, Key::Epubkey, epubkey);
            push_opt_bytes_entry(&mut body, Key::Xcvc, xcvc);
            2 + epubkey.is_some() as u64 + xcvc.is_some() as u64
        },
        Command::Derive { nonce, path, epubkey, xcvc } => {
            push_bytes_entry(&mut body, Key::Nonce, nonce.as_slice());
            let ghost mid = body@;
            match path {
                Some(p) => {
                    push_key(&mut body, Key::Path);
                    push_path(&mut body, p.as_slice());
                    assert(body@ =~= mid + entry(Key::Path, cbor_path(p@)));
                },
                None => {},
            }
            push_opt_bytes_entry(&mut body, Key::Epubkey, epubkey);
            push_opt_bytes_entry(&mut body, Key::Xcvc, xcvc);
            2 + path.is_some() as u64 + epubkey.is_some() as u64 + xcvc.is_some() as u64
        },
        Command::Check { nonce } => {
            push_bytes_entry(&mut body, Key::Nonce, nonce.as_slice());
            2
        },
        Command::New { slot, chain_code, epubkey, xcvc } => {
            push_uint_entry(&mut body, Key::Slot, *slot as u64);
            push_opt_bytes_entry(&mut body, Key::ChainCode, chain_code);
            push_bytes_entry(&mut body, Key::Epubkey, epubkey.as_slice());
            push_bytes_entry(&mut body, Key::Xcvc, xcvc.as_slice());
            4 + chain_code.is_some() as u64
        },
        Command::Unseal { slot, epubkey, xcvc } => {
            push_uint_entry(&mut body, Key::Slot, *slot as u64);
            push_bytes_entry(&mut body, Key::Epubkey, epubkey.as_slice());
            push_bytes_entry(&mut body, Key::Xcvc, xcvc.as_slice());
            4
        },
        Command::Dump { slot, epubkey, xcvc } => {
            push_uint_entry(&mut body, Key::Slot, *slot as u64);
            push_opt_bytes_entry(&mut body, Key::Epubkey, epubkey);
            push_opt_bytes_entry(&mut body, Key::Xcvc, xcvc);
            2 + epubkey.is_some() as u64 + xcvc.is_some() as u64
        },
        Command::Wait { epubkey, xcvc } => {
            push_opt_bytes_entry(&mut body, Key::Epubkey, epubkey);
            push_opt_bytes_entry(&mut body, Key::Xcvc, xcvc);
            1 + epubkey.is_some() as u64 + xcvc.is_some() as u64
        },
    };
    assert(body@ =~= command_body(*cmd));
    assert(count == command_count(*cmd));
    let mut out: Vec<u8> = Vec::new();
    push_head(&mut out, 5, count);
    crate::bytes::append_bytes(&mut out, body.as_slice());
    assert(out@ =~= cbor_command(*cmd));
    out
}

} // verus!
