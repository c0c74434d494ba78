//! Payloads as sequences of null-terminated tokens; building outbound
//! payloads and reading inbound ones into events through the catalog.

use crate::catalog::{
    inbound_of, inbound_opcode, layout_shape, message_version, outbound_opcode, shape_fields, shape_id_pos, FieldSpec,
    InboundMessages, OutboundMessages,
};
use crate::field::{
    decode_field, encode_field, field_bytes, field_kind, field_ok, is_decimal_token, is_int_token,
    lemma_field_round_trip, parse_field, parse_int, push_bytes, unset_token, unsigned_part,
    FieldKind, FieldValue, IBField,
};
use vstd::prelude::*;

verus! {

/// The payload made of `ts`, each token followed by a null byte.
pub open spec fn join_tokens(ts: Seq<Seq<u8>>) -> Seq<u8>
    decreases ts.len(),
{
    if ts.len() == 0 {
        seq![]
    } else {
        join_tokens(ts.drop_last()) + ts.last() + seq![0u8]
    }
}

/// No token holds a null byte.
pub open spec fn tokens_ok(ts: Seq<Seq<u8>>) -> bool {
    forall|i: int| 0 <= i < ts.len() ==> !(#[trigger] ts[i]).contains(0u8)
}

pub open spec fn token_views(ts: Seq<Vec<u8>>) -> Seq<Seq<u8>> {
    ts.map_values(|t: Vec<u8>| t@)
}

pub open spec fn values(fs: Seq<IBField>) -> Seq<FieldValue> {
    fs.map_values(|f: IBField| f@)
}

/// The payload that carries `fs`.
pub open spec fn encode_values(fs: Seq<FieldValue>) -> Seq<u8> {
    join_tokens(fs.map_values(|f: FieldValue| field_bytes(f)))
}

proof fn lemma_join_ends_in_null(ts: Seq<Seq<u8>>)
    requires
        ts.len() > 0,
    ensures
        join_tokens(ts).len() > 0,
        join_tokens(ts).last() == 0,
{
}

/// A payload splits into null-free tokens in one way only.
pub proof fn lemma_split_unique(a: Seq<Seq<u8>>, b: Seq<Seq<u8>>)
    requires
        tokens_ok(a),
        tokens_ok(b),
        join_tokens(a) == join_tokens(b),
    ensures
        a == b,
    decreases a.len(),
{
    if a.len() == 0 {
        if b.len() > 0 {
            lemma_join_ends_in_null(b);
        }
        assert(a =~= b);
    } else if b.len() == 0 {
        lemma_join_ends_in_null(a);
    } else {
        let j = join_tokens(a);
        let ja = join_tokens(a.drop_last());
        let jb = join_tokens(b.drop_last());
        assert(tokens_ok(a.drop_last())) by {
            assert forall|i: int| 0 <= i < a.drop_last().len() implies !(
            #[trigger] a.drop_last()[i]).contains(0u8) by {
                assert(a.drop_last()[i] == a[i]);
            }
        }
        assert(tokens_ok(b.drop_last())) by {
            assert forall|i: int| 0 <= i < b.drop_last().len() implies !(
            #[trigger] b.drop_last()[i]).contains(0u8) by {
                assert(b.drop_last()[i] == b[i]);
            }
        }
        assert(!a.last().contains(0u8)) by {
            assert(a[a.len() - 1] == a.last());
        }
        assert(!b.last().contains(0u8)) by {
            assert(b[b.len() - 1] == b.last());
        }
        assert(j == ja + a.last() + seq![0u8]);
        assert(j == jb + b.last() + seq![0u8]);
        if ja.len() < jb.len() {
            lemma_join_ends_in_null(b.drop_last());
            let k = jb.len() - 1;
            assert(j.len() == ja.len() + a.last().len() + 1);
            assert(j.len() == jb.len() + b.last().len() + 1);
            assert(j[k] == jb[k]);
            assert(ja.len() <= k < ja.len() + a.last().len());
            assert((ja + a.last())[k] == a.last()[k - ja.len()]);
            assert(j[k] == (ja + a.last())[k]);
            assert(a.last().contains(0u8));
        } else if jb.len() < ja.len() {
            lemma_join_ends_in_null(a.drop_last());
            let k = ja.len() - 1;
            assert(j.len() == ja.len() + a.last().len() + 1);
            assert(j.len() == jb.len() + b.last().len() + 1);
            assert(j[k] == ja[k]);
            assert(jb.len() <= k < jb.len() + b.last().len());
            assert((jb + b.last())[k] == b.last()[k - jb.len()]);
            assert(j[k] == (jb + b.last())[k]);
            assert(b.last().contains(0u8));
        } else {
            assert(ja =~= j.subrange(0, ja.len() as int));
            assert(jb =~= j.subrange(0, jb.len() as int));
            assert(a.last() =~= j.subrange(ja.len() as int, j.len() - 1));
            assert(b.last() =~= j.subrange(jb.len() as int, j.len() - 1));
            lemma_split_unique(a.drop_last(), b.drop_last());
            assert(a =~= a.drop_last().push(a.last()));
            assert(b =~= b.drop_last().push(b.last()));
        }
    }
}

/// Splits a payload into its tokens. A payload that does not end with a null
/// byte has none.
pub fn split_tokens(p: &[u8]) -> (r: Option<Vec<Vec<u8>>>)
    ensures
        r is Some <==> (p@.len() == 0 || p@.last() == 0),
        r matches Some(ts) ==> join_tokens(token_views(ts@)) == p@ && tokens_ok(token_views(ts@)),
{
    let mut ts: Vec<Vec<u8>> = Vec::new();
    let mut cur: Vec<u8> = Vec::new();
    let mut i: usize = 0;
    while i < p.len()
        invariant
            i <= p@.len(),
            join_tokens(token_views(ts@)) + cur@ == p@.subrange(0, i as int),
            tokens_ok(token_views(ts@)),
            !cur@.contains(0u8),
            cur@.len() > 0 ==> p@[i - 1] != 0,
            cur@.len() == 0 && i > 0 ==> p@[i - 1] == 0,
        decreases p@.len() - i,
    {
        let b = p[i];
        let ghost before = token_views(ts@);
        if b == 0 {
            let t = cur;
            cur = Vec::new();
            ts.push(t);
            assert(token_views(ts@) =~= before.push(t@));
            assert(token_views(ts@).drop_last() =~= before);
            assert(p@.subrange(0, i + 1) =~= p@.subrange(0, i as int).push(0u8));
            assert(join_tokens(token_views(ts@)) =~= p@.subrange(0, i + 1));
            assert(tokens_ok(token_views(ts@))) by {
                assert forall|k: int| 0 <= k < token_views(ts@).len() implies !(
                #[trigger] token_views(ts@)[k]).contains(0u8) by {
                    if k < before.len() {
                        assert(token_views(ts@)[k] == before[k]);
                    }
                }
            }
        } else {
            let ghost c0 = cur@;
            cur.push(b);
            assert(p@.subrange(0, i + 1) =~= p@.subrange(0, i as int).push(b));
            assert(join_tokens(token_views(ts@)) + cur@ =~= p@.subrange(0, i + 1));
            assert(!cur@.contains(0u8)) by {
                if cur@.contains(0u8) {
                    let k = choose|k: int| 0 <= k < cur@.len() && cur@[k] == 0;
                    if k < c0.len() {
                        assert(c0[k] == 0);
                    }
                }
            }
        }
        i = i + 1;
    }
    assert(p@.subrange(0, p@.len() as int) =~= p@);
    if cur.len() > 0 {
        None
    } else {
        assert(join_tokens(token_views(ts@)) =~= p@);
        Some(ts)
    }
}

/// Appends the payload that carries `fields` to `out`.
pub fn encode_fields(fields: &[IBField], out: &mut Vec<u8>)
    ensures
        final(out)@ == old(out)@ + encode_values(values(fields@)),
{
    let mut i: usize = 0;
    while i < fields.len()
        invariant
            i <= fields@.len(),
            out@ == old(out)@ + encode_values(values(fields@.subrange(0, i as int))),
        decreases fields@.len() - i,
    {
        let ghost before = out@;
        encode_field(&fields[i], out);
        proof {
            let s0 = values(fields@.subrange(0, i as int));
            let s1 = values(fields@.subrange(0, i + 1));
            assert(s1 =~= s0.push(fields@[i as int]@));
            let m0 = s0.map_values(|f: FieldValue| field_bytes(f));
            let m1 = s1.map_values(|f: FieldValue| field_bytes(f));
            assert(m1.drop_last() =~= m0);
            assert(m1.last() == field_bytes(fields@[i as int]@));
            assert(out@ =~= old(out)@ + encode_values(s1));
        }
        i = i + 1;
    }
    assert(fields@.subrange(0, fields@.len() as int) =~= fields@);
}

proof fn lemma_join_concat(a: Seq<Seq<u8>>, b: Seq<Seq<u8>>)
    ensures
        join_tokens(a + b) == join_tokens(a) + join_tokens(b),
    decreases b.len(),
{
    if b.len() == 0 {
        assert(a + b =~= a);
        assert(join_tokens(a) + join_tokens(b) =~= join_tokens(a));
    } else {
        lemma_join_concat(a, b.drop_last());
        assert((a + b).drop_last() =~= a + b.drop_last());
        assert((a + b).last() == b.last());
        assert(join_tokens(a + b) =~= join_tokens(a) + join_tokens(b));
    }
}

/// The payload of `x` followed by the payload of `y` is the payload of both.
pub proof fn lemma_encode_concat(x: Seq<FieldValue>, y: Seq<FieldValue>)
    ensures
        encode_values(x + y) == encode_values(x) + encode_values(y),
{
    let f = |v: FieldValue| field_bytes(v);
    assert((x + y).map_values(f) =~= x.map_values(f) + y.map_values(f));
    lemma_join_concat(x.map_values(f), y.map_values(f));
}

/// The fields of an outbound message: opcode, message version where the kind
/// has one, request id where one is given, then the caller's fields.
pub open spec fn request_values(kind: OutboundMessages, id: Option<i64>, fields: Seq<FieldValue>) -> Seq<
    FieldValue,
> {
    seq![FieldValue::Integer(outbound_opcode(kind) as int)] + match message_version(kind) {
        Some(v) => seq![FieldValue::Integer(v as int)],
        None => seq![],
    } + match id {
        Some(i) => seq![FieldValue::Integer(i as int)],
        None => seq![],
    } + fields
}

/// Builds the payload of an outbound message of kind `kind`.
pub fn encode_request(kind: OutboundMessages, id: Option<i64>, fields: &[IBField]) -> (r: Vec<u8>)
    ensures
        r@ == encode_values(request_values(kind, id, values(fields@))),
{
    let mut head: Vec<IBField> = Vec::new();
    head.push(IBField::IBInteger(kind.opcode() as i64));
    match kind.message_version() {
        Some(v) => head.push(IBField::IBInteger(v as i64)),
        None => {},
    }
    match id {
        Some(i) => head.push(IBField::IBInteger(i)),
        None => {},
    }
    let ghost hv = seq![FieldValue::Integer(outbound_opcode(kind) as int)] + match message_version(
        kind,
    ) {
        Some(v) => seq![FieldValue::Integer(v as int)],
        None => seq![],
    } + match id {
        Some(i) => seq![FieldValue::Integer(i as int)],
        None => seq![],
    };
    assert(values(head@) =~= hv);
    let mut r: Vec<u8> = Vec::new();
    encode_fields(head.as_slice(), &mut r);
    encode_fields(fields, &mut r);
    proof {
        lemma_encode_concat(hv, values(fields@));
        assert(request_values(kind, id, values(fields@)) == hv + values(fields@));
        assert(r@ =~= encode_values(hv) + encode_values(values(fields@)));
    }
    r
}

/// What an inbound payload reads as.
#[derive(Debug)]
pub enum Event {
    /// A message of a catalogued kind, with its request id where its layout
    /// has one.
    Message { kind: InboundMessages, req_id: Option<i64>, fields: Vec<IBField> },
    /// A payload that does not match the layout of its kind.
    Malformed { raw: Vec<u8> },
    /// A payload whose opcode the catalog does not list.
    UnknownOpcode { opcode: i64, raw: Vec<u8> },
}

pub enum EventView {
    Message { kind: InboundMessages, req_id: Option<int>, fields: Seq<FieldValue> },
    Malformed { raw: Seq<u8> },
    UnknownOpcode { opcode: int, raw: Seq<u8> },
}

impl View for Event {
    type V = EventView;

    open spec fn view(&self) -> EventView {
        match self {
            Event::Message { kind, req_id, fields } => EventView::Message {
                kind: *kind,
                req_id: match req_id {
                    Some(i) => Some(*i as int),
                    None => None,
                },
                fields: values(fields@),
            },
            Event::Malformed { raw } => EventView::Malformed { raw: raw@ },
            Event::UnknownOpcode { opcode, raw } => EventView::UnknownOpcode {
                opcode: *opcode as int,
                raw: raw@,
            },
        }
    }
}

/// The kinds of the positions of `specs` that a server of version `ver` sends.
pub open spec fn active_kinds(specs: Seq<FieldSpec>, ver: u32) -> Seq<FieldKind>
    decreases specs.len(),
{
    if specs.len() == 0 {
        seq![]
    } else if specs.last().since <= ver {
        active_kinds(specs.drop_last(), ver).push(specs.last().kind)
    } else {
        active_kinds(specs.drop_last(), ver)
    }
}

/// The kind of position `j`: past the typed fields, text.
pub open spec fn kind_at(kinds: Seq<FieldKind>, j: int) -> FieldKind {
    if 0 <= j < kinds.len() {
        kinds[j]
    } else {
        FieldKind::Text
    }
}

/// The fields that tokens read as, position by position.
pub open spec fn parse_tokens(ts: Seq<Seq<u8>>, kinds: Seq<FieldKind>) -> Option<Seq<FieldValue>>
    decreases ts.len(),
{
    if ts.len() == 0 {
        Some(seq![])
    } else {
        match (
            parse_tokens(ts.drop_last(), kinds),
            parse_field(ts.last(), kind_at(kinds, ts.len() - 1)),
        ) {
            (Some(a), Some(f)) => Some(a.push(f)),
            _ => None,
        }
    }
}

/// The request id at position `pos` of `fs`.
pub open spec fn id_of(fs: Seq<FieldValue>, pos: Option<nat>) -> Option<int> {
    match pos {
        Some(p) => if p < fs.len() {
            match fs[p as int] {
                FieldValue::Integer(v) => Some(v),
                _ => None,
            }
        } else {
            None
        },
        None => None,
    }
}

/// The event that payload `p`, made of tokens `ts`, reads as when the server
/// has version `ver`.
pub open spec fn interpret(p: Seq<u8>, ts: Seq<Seq<u8>>, ver: u32) -> EventView {
    if ts.len() == 0 {
        EventView::Malformed { raw: p }
    } else {
        match parse_field(ts[0], FieldKind::Integer) {
            Some(FieldValue::Integer(op)) => match inbound_of(op) {
                None => EventView::UnknownOpcode { opcode: op, raw: p },
                Some(k) => {
                    let kinds = active_kinds(shape_fields(layout_shape(k)), ver);
                    if ts.len() - 1 < kinds.len() {
                        EventView::Malformed { raw: p }
                    } else {
                        match parse_tokens(ts.drop_first(), kinds) {
                            Some(fs) => EventView::Message {
                                kind: k,
                                req_id: id_of(fs, shape_id_pos(layout_shape(k))),
                                fields: fs,
                            },
                            None => EventView::Malformed { raw: p },
                        }
                    }
                },
            },
            _ => EventView::Malformed { raw: p },
        }
    }
}

fn active_kinds_exec(specs: &Vec<FieldSpec>, ver: u32) -> (r: Vec<FieldKind>)
    ensures
        r@ == active_kinds(specs@, ver),
{
    let mut r: Vec<FieldKind> = Vec::new();
    let mut i: usize = 0;
    while i < specs.len()
        invariant
            i <= specs@.len(),
            r@ == active_kinds(specs@.subrange(0, i as int), ver),
        decreases specs@.len() - i,
    {
        assert(specs@.subrange(0, i + 1).drop_last() =~= specs@.subrange(0, i as int));
        if specs[i].since <= ver {
            r.push(specs[i].kind);
        }
        i = i + 1;
    }
    assert(specs@.subrange(0, specs@.len() as int) =~= specs@);
    r
}

proof fn lemma_parse_prefix_none(ts: Seq<Seq<u8>>, kinds: Seq<FieldKind>, n: int)
    requires
        0 <= n <= ts.len(),
        parse_tokens(ts.subrange(0, n), kinds) is None,
    ensures
        parse_tokens(ts, kinds) is None,
    decreases ts.len() - n,
{
    if n < ts.len() {
        assert(ts.subrange(0, n + 1).drop_last() =~= ts.subrange(0, n));
        lemma_parse_prefix_none(ts, kinds, n + 1);
    } else {
        assert(ts.subrange(0, n) =~= ts);
    }
}

fn parse_tokens_exec(ts: &Vec<Vec<u8>>, kinds: &Vec<FieldKind>) -> (r: Option<Vec<IBField>>)
    requires
        ts@.len() >= 1,
    ensures
        match r {
            Some(fs) => parse_tokens(token_views(ts@).drop_first(), kinds@) == Some(values(fs@)),
            None => parse_tokens(token_views(ts@).drop_first(), kinds@) is None,
        },
{
    let ghost all = token_views(ts@).drop_first();
    let mut fs: Vec<IBField> = Vec::new();
    let mut i: usize = 1;
    while i < ts.len()
        invariant
            1 <= i <= ts@.len(),
            all == token_views(ts@).drop_first(),
            parse_tokens(all.subrange(0, i - 1), kinds@) == Some(values(fs@)),
        decreases ts@.len() - i,
    {
        let k = if i - 1 < kinds.len() {
            kinds[i - 1]
        } else {
            FieldKind::Text
        };
        let ghost pre = all.subrange(0, i - 1);
        let ghost nxt = all.subrange(0, i as int);
        assert(nxt.drop_last() =~= pre);
        assert(nxt.last() == ts@[i as int]@);
        match decode_field(ts[i].as_slice(), k) {
            Some(f) => {
                let ghost fs0 = fs@;
                let ghost fv = f@;
                fs.push(f);
                assert(values(fs@) =~= values(fs0).push(fv));
            },
            None => {
                proof {
                    lemma_parse_prefix_none(all, kinds@, i as int);
                }
                return None;
            },
        }
        i = i + 1;
    }
    assert(all.subrange(0, ts@.len() - 1) =~= all);
    Some(fs)
}

fn id_of_exec(fs: &Vec<IBField>, pos: Option<usize>) -> (r: Option<i64>)
    ensures
        match r {
            Some(v) => id_of(values(fs@), pos_view(pos)) == Some(v as int),
            None => id_of(values(fs@), pos_view(pos)) is None,
        },
{
    match pos {
        Some(p) => if p < fs.len() {
            match &fs[p] {
                IBField::IBInteger(v) => Some(*v),
                _ => None,
            }
        } else {
            None
        },
        None => None,
    }
}

pub open spec fn pos_view(pos: Option<usize>) -> Option<nat> {
    match pos {
        Some(p) => Some(p as nat),
        None => None,
    }
}

/// Reads an inbound payload, with the server at version `ver`. A payload that
/// does not end with a null byte is malformed; otherwise it reads as
/// `interpret` says of its tokens.
pub fn decode_event(p: &[u8], ver: u32) -> (r: Event)
    ensures
        (p@.len() == 0 || p@.last() == 0) ==> forall|ts: Seq<Seq<u8>>|
            tokens_ok(ts) && join_tokens(ts) == p@ ==> r@ == interpret(p@, ts, ver),
        !(p@.len() == 0 || p@.last() == 0) ==> r@ == (EventView::Malformed { raw: p@ }),
{
    let mut raw: Vec<u8> = Vec::new();
    push_bytes(p, &mut raw);
    assert(raw@ =~= p@);
    let ts = match split_tokens(p) {
        Some(ts) => ts,
        None => {
            return Event::Malformed { raw };
        },
    };
    let ghost tv = token_views(ts@);
    assert forall|t2: Seq<Seq<u8>>| tokens_ok(t2) && join_tokens(t2) == p@ implies t2 == tv by {
        lemma_split_unique(t2, tv);
    }
    if ts.len() == 0 {
        return Event::Malformed { raw };
    }
    assert(tv[0] == ts@[0]@);
    let op = match parse_int(ts[0].as_slice()) {
        Some(op) => op,
        None => {
            return Event::Malformed { raw };
        },
    };
    let k = match InboundMessages::from_opcode(op) {
        Some(k) => k,
        None => {
            return Event::UnknownOpcode { opcode: op, raw };
        },
    };
    let shape = k.shape();
    let specs = shape.fields();
    let kinds = active_kinds_exec(&specs, ver);
    if ts.len() - 1 < kinds.len() {
        return Event::Malformed { raw };
    }
    match parse_tokens_exec(&ts, &kinds) {
        Some(fs) => {
            let id = id_of_exec(&fs, shape.id_position());
            Event::Message { kind: k, req_id: id, fields: fs }
        },
        None => Event::Malformed { raw },
    }
}

proof fn lemma_field_token_ok(f: FieldValue)
    requires
        field_ok(f),
    ensures
        !field_bytes(f).contains(0u8),
{
    let t = field_bytes(f);
    if t.contains(0u8) {
        let k = choose|k: int| 0 <= k < t.len() && t[k] == 0;
        match f {
            FieldValue::Integer(v) => {
                lemma_field_round_trip(f);
                assert(is_int_token(t));
                if t.len() > 1 && t[0] == 45 && k > 0 {
                    assert(t.drop_first()[k - 1] == t[k]);
                }
            },
            FieldValue::Floating(_) => {
                let u = unsigned_part(t);
                assert(is_decimal_token(t));
                if t.len() > 0 && t[0] == 45 && k > 0 {
                    assert(u[k - 1] == t[k]);
                } else if !(t.len() > 0 && t[0] == 45) {
                    assert(u[k] == t[k]);
                }
            },
            FieldValue::Unset => {
                assert(t == unset_token());
            },
            FieldValue::Text(_) => {},
        }
    }
}

/// Fields read back from their own tokens, position by position, as
/// themselves, where each position's kind is the field's own.
pub proof fn lemma_tokens_round_trip(fs: Seq<FieldValue>, kinds: Seq<FieldKind>)
    requires
        forall|i: int| 0 <= i < fs.len() ==> field_ok(#[trigger] fs[i]),
        forall|i: int| 0 <= i < fs.len() ==> field_kind(#[trigger] fs[i]) == kind_at(kinds, i),
    ensures
        parse_tokens(fs.map_values(|f: FieldValue| field_bytes(f)), kinds) == Some(fs),
        tokens_ok(fs.map_values(|f: FieldValue| field_bytes(f))),
    decreases fs.len(),
{
    let ts = fs.map_values(|f: FieldValue| field_bytes(f));
    if fs.len() > 0 {
        let pre = fs.drop_last();
        assert forall|i: int| 0 <= i < pre.len() implies field_ok(#[trigger] pre[i]) && field_kind(
            pre[i],
        ) == kind_at(kinds, i) by {
            assert(pre[i] == fs[i]);
        }
        lemma_tokens_round_trip(pre, kinds);
        assert(ts.drop_last() =~= pre.map_values(|f: FieldValue| field_bytes(f)));
        let last = fs[fs.len() - 1];
        lemma_field_round_trip(last);
        assert(ts.last() == field_bytes(last));
        assert(fs =~= pre.push(last));
    }
    assert forall|i: int| 0 <= i < ts.len() implies !(#[trigger] ts[i]).contains(0u8) by {
        lemma_field_token_ok(fs[i]);
    }
}

/// A message of kind `k` whose fields can travel and match the layout that a
/// server of version `ver` sends reads back from its payload as the same
/// message.
pub proof fn lemma_event_round_trip(k: InboundMessages, fs: Seq<FieldValue>, ver: u32)
    requires
        forall|i: int| 0 <= i < fs.len() ==> field_ok(#[trigger] fs[i]),
        fs.len() >= active_kinds(shape_fields(layout_shape(k)), ver).len(),
        forall|i: int|
            0 <= i < fs.len() ==> field_kind(#[trigger] fs[i]) == kind_at(
                active_kinds(shape_fields(layout_shape(k)), ver),
                i,
            ),
    ensures
        ({
            let all = seq![FieldValue::Integer(inbound_opcode(k) as int)] + fs;
            let ts = all.map_values(|f: FieldValue| field_bytes(f));
            &&& tokens_ok(ts)
            &&& join_tokens(ts) == encode_values(all)
            &&& interpret(encode_values(all), ts, ver) == (EventView::Message {
                kind: k,
                req_id: id_of(fs, shape_id_pos(layout_shape(k))),
                fields: fs,
            })
        }),
{
    let op = FieldValue::Integer(inbound_opcode(k) as int);
    let all = seq![op] + fs;
    let kinds = active_kinds(shape_fields(layout_shape(k)), ver);
    let ts = all.map_values(|f: FieldValue| field_bytes(f));
    lemma_field_round_trip(op);
    lemma_field_token_ok(op);
    lemma_tokens_round_trip(fs, kinds);
    let rest = fs.map_values(|f: FieldValue| field_bytes(f));
    assert(ts.drop_first() =~= rest);
    assert(ts[0] == field_bytes(op));
    assert forall|i: int| 0 <= i < ts.len() implies !(#[trigger] ts[i]).contains(0u8) by {
        if i > 0 {
            assert(ts[i] == rest[i - 1]);
        }
    }
    crate::catalog::lemma_inbound_opcode_inverse(k);
}

} // verus!
