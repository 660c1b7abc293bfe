//! The SQL text that selects device rows, optionally filtered by type.
use vstd::prelude::*;
use crate::json::texts;

verus! {

/// The query that selects every device row.
pub const SELECT_DEVICES: &'static str = "SELECT * FROM devices";

/// `t` with each single quote doubled, as an SQL string literal needs.
pub open spec fn escaped(t: Seq<char>) -> Seq<char>
    decreases t.len(),
{
    if t.len() == 0 {
        seq![]
    } else if t.last() == '\'' {
        escaped(t.drop_last()) + "''"@
    } else {
        escaped(t.drop_last()).push(t.last())
    }
}

/// `t` as an SQL string literal.
pub open spec fn sql_literal(t: Seq<char>) -> Seq<char> {
    "'"@ + escaped(t) + "'"@
}

/// The literals of `ts`, separated by commas.
pub open spec fn literal_list(ts: Seq<Seq<char>>) -> Seq<char>
    decreases ts.len(),
{
    if ts.len() == 0 {
        seq![]
    } else if ts.len() == 1 {
        sql_literal(ts[0])
    } else {
        literal_list(ts.drop_last()) + ", "@ + sql_literal(ts.last())
    }
}

/// The query for the device rows whose type is one of `types`, or for all
/// device rows when there is no filter.
pub open spec fn query_text(types: Option<Seq<Seq<char>>>) -> Seq<char> {
    match types {
        None => SELECT_DEVICES@,
        Some(ts) => SELECT_DEVICES@ + " WHERE type IN ("@ + literal_list(ts) + ")"@,
    }
}

/// Appends `t` to `out` as an SQL string literal.
fn push_literal(out: &mut String, t: &str)
    ensures
        final(out)@ == old(out)@ + sql_literal(t@),
{
    let n = t.unicode_len();
    out.append("'");
    let ghost start = out@;
    let mut i: usize = 0;
    while i < n
        invariant
            n == t@.len(),
            i <= n,
            start == old(out)@ + "'"@,
            out@ == start + escaped(t@.subrange(0, i as int)),
        decreases n - i,
    {
        let ghost prefix = t@.subrange(0, i + 1);
        assert(prefix.drop_last() =~= t@.subrange(0, i as int));
        assert(prefix.last() == t@[i as int]);
        if t.get_char(i) == '\'' {
            out.append("''");
            assert(out@ =~= start + escaped(prefix));
        } else {
            let c = t.substring_char(i, i + 1);
            assert(c@ =~= seq![t@[i as int]]);
            out.append(c);
            assert(out@ =~= start + escaped(prefix));
        }
        i = i + 1;
    }
    assert(t@.subrange(0, n as int) =~= t@);
    out.append("'");
    assert(out@ =~= old(out)@ + sql_literal(t@));
}

/// The query for the device rows whose type is one of `device_types`, or for
/// all device rows when there is no filter.
pub fn device_query(device_types: &Option<Vec<String>>) -> (r: String)
    ensures
        r@ == query_text(
            match device_types {
                Some(v) => Some(texts(v@)),
                None => None,
            },
        ),
{
    let mut out = String::from_str(SELECT_DEVICES);
    match device_types {
        None => out,
        Some(types) => {
            out.append(" WHERE type IN (");
            let ghost head = out@;
            let mut i: usize = 0;
            while i < types.len()
                invariant
                    i <= types@.len(),
                    out@ == head + literal_list(texts(types@.subrange(0, i as int))),
                decreases types@.len() - i,
            {
                let ghost prev = texts(types@.subrange(0, i as int));
                let ghost next = texts(types@.subrange(0, i + 1));
                assert(next.drop_last() =~= prev);
                assert(next.last() == types@[i as int]@);
                if i > 0 {
                    out.append(", ");
                }
                push_literal(&mut out, types[i].as_str());
                assert(out@ =~= head + literal_list(next));
                i = i + 1;
            }
            assert(types@.subrange(0, types@.len() as int) =~= types@);
            out.append(")");
            out
        },
    }
}

/// The device types of client stations.
pub fn station_types() -> (r: Vec<String>)
    ensures
        texts(r@) == seq!["Wi-Fi Client"@, "Wi-Fi Device"@],
{
    let r = vec![String::from_str("Wi-Fi Client"), String::from_str("Wi-Fi Device")];
    assert(texts(r@) =~= seq!["Wi-Fi Client"@, "Wi-Fi Device"@]);
    r
}

/// The device types of access points.
pub fn access_point_types() -> (r: Vec<String>)
    ensures
        texts(r@) == seq!["Wi-Fi AP"@, "Wi-Fi Bridged"@],
{
    let r = vec![String::from_str("Wi-Fi AP"), String::from_str("Wi-Fi Bridged")];
    assert(texts(r@) =~= seq!["Wi-Fi AP"@, "Wi-Fi Bridged"@]);
    r
}

} // verus!
