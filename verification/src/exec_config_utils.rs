use vstd::prelude::*;
use vstd::string::StringSliceAdditionalSpecFns;

verus! {

// The configuration of a controller travels at the end of its executable:
// the JSON text, then its length as a little-endian `u16`.

/// The bytes appended to an executable to carry the JSON text `json`: the
/// text, then its length modulo 2^16 as two little-endian bytes.
pub open spec fn spec_trailer(json: Seq<u8>) -> Seq<u8> {
    let n = json.len() % 0x10000;
    json + seq![(n % 0x100) as u8, (n / 0x100) as u8]
}

/// The length that the last two bytes of `data` announce.
pub open spec fn announced_len(data: Seq<u8>) -> nat
    recommends
        data.len() >= 2,
{
    (data[data.len() - 2] as nat) + (data[data.len() - 1] as nat) * 0x100
}

/// Whether `data` ends with a length field and holds that many bytes before it.
pub open spec fn has_trailer(data: Seq<u8>) -> bool {
    data.len() >= 2 && announced_len(data) + 2 <= data.len()
}

/// The JSON text that ends `data`, just before its length field.
pub open spec fn spec_payload(data: Seq<u8>) -> Seq<u8>
    recommends
        has_trailer(data),
{
    data.subrange(data.len() - 2 - announced_len(data), data.len() - 2)
}

/// The bytes to append to a controller executable so that it carries the
/// configuration text `config_str` (its UTF-8 bytes, then their count as a
/// little-endian `u16`, truncated as the `u16` cast truncates).
pub fn config_trailer(config_str: &str) -> (r: Vec<u8>)
    ensures
        r@ == spec_trailer(config_str.spec_bytes()),
{
    let bytes: &[u8] = config_str.as_bytes();
    let n: usize = bytes.len() % 0x10000;
    let mut out: Vec<u8> = Vec::new();
    let mut i: usize = 0;
    while i < bytes.len()
        invariant
            i <= bytes.len(),
            out@ == bytes@.take(i as int),
        decreases bytes.len() - i,
    {
        out.push(bytes[i]);
        i = i + 1;
        assert(out@ =~= bytes@.take(i as int));
    }
    assert(bytes@.take(bytes.len() as int) =~= bytes@);
    out.push((n % 0x100) as u8);
    out.push((n / 0x100) as u8);
    assert(out@ =~= spec_trailer(config_str.spec_bytes()));
    out
}

/// Whether the executable image `data` ends with a configuration trailer
/// whose announced length fits.
pub fn has_config_trailer(data: &[u8]) -> (r: bool)
    ensures
        r == has_trailer(data@),
{
    if data.len() < 2 {
        return false;
    }
    let n: usize = (data[data.len() - 2] as usize) + (data[data.len() - 1] as usize) * 0x100;
    n + 2 <= data.len()
}

/// The configuration text carried at the end of the executable image `data`.
pub fn config_payload(data: &[u8]) -> (r: Vec<u8>)
    requires
        has_trailer(data@),
    ensures
        r@ == spec_payload(data@),
{
    let n: usize = (data[data.len() - 2] as usize) + (data[data.len() - 1] as usize) * 0x100;
    let start: usize = data.len() - 2 - n;
    let end: usize = data.len() - 2;
    let mut out: Vec<u8> = Vec::new();
    let mut i: usize = start;
    while i < end
        invariant
            start <= i <= end,
            end == data.len() - 2,
            out@ == data@.subrange(start as int, i as int),
        decreases end - i,
    {
        out.push(data[i]);
        i = i + 1;
        assert(out@ =~= data@.subrange(start as int, i as int));
    }
    out
}

/// Reading back what was appended: an executable image `exe` followed by
/// the trailer of a text of at most 65535 bytes carries exactly that text.
pub proof fn lemma_trailer_round_trip(exe: Seq<u8>, json: Seq<u8>)
    requires
        json.len() <= 0xffff,
    ensures
        has_trailer(exe + spec_trailer(json)),
        spec_payload(exe + spec_trailer(json)) == json,
{
    let data = exe + spec_trailer(json);
    let n = json.len();
    assert(data.len() == exe.len() + n + 2);
    assert(data[data.len() - 2] == (n % 0x100) as u8);
    assert(data[data.len() - 1] == (n / 0x100) as u8);
    assert(announced_len(data) == n);
    assert(spec_payload(data) =~= json);
}

} // verus!
