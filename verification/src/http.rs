use vstd::prelude::*;
use vstd::slice::{slice_subrange, slice_to_vec};
use vstd::string::StringSliceAdditionalSpecFns;

verus! {

/// A well-formed line break: the first carriage return at or after `pos`
/// stands at `i`, and a line feed follows it.
pub open spec fn line_break_at(data: Seq<u8>, pos: int, i: int) -> bool {
    &&& pos <= i
    &&& i + 1 < data.len()
    &&& data[i] == 13
    &&& data[i + 1] == 10
    &&& (forall|j: int| pos <= j < i ==> data[j] != 13)
}

/// The next line of a buffer: the bytes from `pos` up to the first
/// carriage-return-line-feed pair, and the position just past the pair.
/// `None` when no carriage return follows, or a bare one does.
#[verifier::loop_isolation(false)]
pub fn read_until_rn(data: &Vec<u8>, pos: usize) -> (r: Option<(Vec<u8>, usize)>)
    requires
        pos <= data@.len(),
    ensures
        (match r {
            Some((line, next)) => {
                &&& line_break_at(data@, pos as int, pos + line@.len())
                &&& line@ == data@.subrange(pos as int, pos + line@.len())
                &&& next == pos + line@.len() + 2
                &&& next <= data@.len()
            },
            None => forall|i: int| !line_break_at(data@, pos as int, i),
        }),
{
    let mut i: usize = pos;
    while i < data.len()
        invariant
            pos <= i <= data@.len(),
            forall|j: int| pos <= j < i ==> data@[j] != 13,
        decreases data@.len() - i,
    {
        if *data.get(i).unwrap() == 13 {
            if i + 1 < data.len() && *data.get(i + 1).unwrap() == 10 {
                let line = slice_to_vec(slice_subrange(data.as_slice(), pos, i));
                return Some((line, i + 2));
            } else {
                proof {
                    assert forall|k: int| !line_break_at(data@, pos as int, k) by {
                        if line_break_at(data@, pos as int, k) {
                            assert(k >= i || data@[k] != 13);
                            assert(!(k > i) || data@[i as int] != 13 || !(pos <= i < k));
                            assert(k == i);
                        }
                    }
                }
                return None;
            }
        }
        i = i + 1;
    }
    proof {
        assert forall|k: int| !line_break_at(data@, pos as int, k) by {
            if line_break_at(data@, pos as int, k) {
                assert(pos <= k && k + 1 < data@.len());
                assert(data@[k] != 13);
            }
        }
    }
    None
}

/// The nine bytes that open a status line of protocol version 1.1,
/// separator included.
pub open spec fn spec_http11_space() -> Seq<u8> {
    seq![72u8, 84u8, 84u8, 80u8, 47u8, 49u8, 46u8, 49u8, 32u8]
}

/// Whether a status line is well formed: the protocol-1.1 opening, a
/// three-digit status code, and nothing but a space after it.
pub open spec fn status_line_ok(line: Seq<u8>) -> bool {
    &&& line.len() >= 12
    &&& line.subrange(0, 9) == spec_http11_space()
    &&& (forall|j: int| 9 <= j < 12 ==> 48 <= #[trigger] line[j] <= 57)
    &&& (line.len() == 12 || line[12] == 32)
}

/// The status code of a well-formed status line, `None` otherwise.
pub fn parse_status_line(line: &Vec<u8>) -> (r: Option<u16>)
    ensures
        (match r {
            Some(status) => status_line_ok(line@) && status == 100 * (line@[9] - 48) + 10 * (
            line@[10] - 48) + (line@[11] - 48),
            None => !status_line_ok(line@),
        }),
{
    if line.len() < 12 {
        return None;
    }
    let prefix_ok = *line.get(0).unwrap() == 72 && *line.get(1).unwrap() == 84 && *line.get(
        2,
    ).unwrap() == 84 && *line.get(3).unwrap() == 80 && *line.get(4).unwrap() == 47 && *line.get(
        5,
    ).unwrap() == 49 && *line.get(6).unwrap() == 46 && *line.get(7).unwrap() == 49 && *line.get(
        8,
    ).unwrap() == 32;
    proof {
        if prefix_ok {
            assert(line@.subrange(0, 9) =~= spec_http11_space());
        } else {
            if line@.subrange(0, 9) == spec_http11_space() {
                assert(forall|j: int|
                    0 <= j < 9 ==> #[trigger] line@[j] == spec_http11_space()[j]);
            }
        }
    }
    if !prefix_ok {
        return None;
    }
    let d0 = *line.get(9).unwrap();
    let d1 = *line.get(10).unwrap();
    let d2 = *line.get(11).unwrap();
    if !(48 <= d0 && d0 <= 57 && 48 <= d1 && d1 <= 57 && 48 <= d2 && d2 <= 57) {
        return None;
    }
    if line.len() > 12 && *line.get(12).unwrap() != 32 {
        return None;
    }
    let status: u16 = 100 * ((d0 - 48) as u16) + 10 * ((d1 - 48) as u16) + ((d2 - 48) as u16);
    Some(status)
}

/// Split a header line at its first colon into name and value bytes;
/// `None` when the line carries no colon.
#[verifier::loop_isolation(false)]
pub fn parse_header_line(line: &Vec<u8>) -> (r: Option<(Vec<u8>, Vec<u8>)>)
    ensures
        (match r {
            Some((name, value)) => {
                &&& name@.len() < line@.len()
                &&& line@[name@.len() as int] == 58
                &&& (forall|j: int| 0 <= j < name@.len() ==> line@[j] != 58)
                &&& name@ == line@.subrange(0, name@.len() as int)
                &&& value@ == line@.subrange(name@.len() as int + 1, line@.len() as int)
            },
            None => forall|i: int| 0 <= i < line@.len() ==> line@[i] != 58,
        }),
{
    let mut i: usize = 0;
    while i < line.len()
        invariant
            i <= line@.len(),
            forall|j: int| 0 <= j < i ==> line@[j] != 58,
        decreases line@.len() - i,
    {
        if *line.get(i).unwrap() == 58 {
            let name = slice_to_vec(slice_subrange(line.as_slice(), 0, i));
            let value = slice_to_vec(slice_subrange(line.as_slice(), i + 1, line.len()));
            return Some((name, value));
        }
        i = i + 1;
    }
    None
}

/// The head of a request: the request line naming the method, path and
/// protocol, and the host header, byte for byte.
pub fn build_request_head(method: &str, path: &str, host: &str) -> (r: Vec<u8>)
    ensures
        r@ == method.spec_bytes() + " ".spec_bytes() + path.spec_bytes()
            + " HTTP/1.1\r\nHost: ".spec_bytes() + host.spec_bytes() + "\r\n".spec_bytes(),
{
    let mut out: Vec<u8> = Vec::new();
    out.extend_from_slice(method.as_bytes());
    out.extend_from_slice(" ".as_bytes());
    out.extend_from_slice(path.as_bytes());
    out.extend_from_slice(" HTTP/1.1\r\nHost: ".as_bytes());
    out.extend_from_slice(host.as_bytes());
    out.extend_from_slice("\r\n".as_bytes());
    proof {
        assert(out@ =~= method.spec_bytes() + " ".spec_bytes() + path.spec_bytes()
            + " HTTP/1.1\r\nHost: ".spec_bytes() + host.spec_bytes() + "\r\n".spec_bytes());
    }
    out
}

} // verus!
