use vstd::prelude::*;

verus! {

/// One response header: a lower-case field name and its raw value bytes,
/// exactly as the transport hands them over.
#[derive(Debug)]
pub struct HeaderField {
    pub name: Vec<u8>,
    pub value: Vec<u8>,
}

/// The bytes of the `content-type` field name.
pub open spec fn content_type_name() -> Seq<u8> {
    seq![99u8, 111u8, 110u8, 116u8, 101u8, 110u8, 116u8, 45u8, 116u8, 121u8, 112u8, 101u8]
}

/// The bytes of the `content-length` field name.
pub open spec fn content_length_name() -> Seq<u8> {
    seq![99u8, 111u8, 110u8, 116u8, 101u8, 110u8, 116u8, 45u8, 108u8, 101u8, 110u8, 103u8, 116u8, 104u8]
}

/// The MIME token whose presence marks a response body as HTML.
pub open spec fn html_token() -> Seq<u8> {
    seq![116u8, 101u8, 120u8, 116u8, 47u8, 104u8, 116u8, 109u8, 108u8]
}

/// A byte a textual header value may hold: visible ASCII, space, or tab.
pub open spec fn is_visible_ascii_byte(b: u8) -> bool {
    (32 <= b && b < 127) || b == 9
}

/// A header value is textual when every byte of it is visible ASCII.
pub open spec fn valid_header_text(v: Seq<u8>) -> bool {
    forall|i: int| 0 <= i < v.len() ==> is_visible_ascii_byte(v[i])
}

/// `needle` occurs as a contiguous run somewhere inside `hay`.
pub open spec fn contains_bytes(hay: Seq<u8>, needle: Seq<u8>) -> bool {
    exists|i: int|
        0 <= i && i + needle.len() <= hay.len() && #[trigger] hay.subrange(
            i,
            i + needle.len() as int,
        ) == needle
}

/// The value of the first header with the given name, if any.
pub open spec fn first_header_value(hs: Seq<HeaderField>, name: Seq<u8>) -> Option<Seq<u8>>
    decreases hs.len(),
{
    if hs.len() == 0 {
        Option::None
    } else if hs[0].name@ == name {
        Option::Some(hs[0].value@)
    } else {
        first_header_value(hs.drop_first(), name)
    }
}

/// A response is eligible for transformation iff it declares a content type,
/// the declared value is textual, and that value contains the HTML token.
pub open spec fn eligible(hs: Seq<HeaderField>) -> bool {
    match first_header_value(hs, content_type_name()) {
        Option::Some(v) => valid_header_text(v) && contains_bytes(v, html_token()),
        Option::None => false,
    }
}

/// Whether a header is kept when the body is rewritten: everything but the
/// `content-length` entry survives.
pub open spec fn keeps_header(h: HeaderField) -> bool {
    h.name@ != content_length_name()
}

/// The header list with every `content-length` entry removed, order kept.
pub open spec fn non_length_headers(hs: Seq<HeaderField>) -> Seq<HeaderField> {
    hs.filter(|h: HeaderField| keeps_header(h))
}

/// Law: rewriting the header list for a new body leaves no `content-length`
/// entry behind, and a list that carried none comes through whole, every
/// other header kept in order.
pub proof fn lemma_content_length_removal(hs: Seq<HeaderField>)
    ensures
        forall|i: int|
            0 <= i < non_length_headers(hs).len() ==> keeps_header(
                #[trigger] non_length_headers(hs)[i],
            ),
        (forall|i: int| 0 <= i < hs.len() ==> keeps_header(#[trigger] hs[i]))
            ==> non_length_headers(hs) == hs,
    decreases hs.len(),
{
    reveal(Seq::filter);
    if hs.len() == 0 {
        assert(non_length_headers(hs) =~= hs);
    } else {
        let rest = hs.drop_last();
        lemma_content_length_removal(rest);
        let fr = non_length_headers(rest);
        if keeps_header(hs.last()) {
            assert(non_length_headers(hs) == fr.push(hs.last()));
            assert forall|i: int|
                0 <= i < non_length_headers(hs).len() implies keeps_header(
                non_length_headers(hs)[i],
            ) by {
                if i < fr.len() {
                    assert(non_length_headers(hs)[i] == fr[i]);
                } else {
                    assert(non_length_headers(hs)[i] == hs.last());
                }
            }
        } else {
            assert(non_length_headers(hs) == fr);
        }
        if forall|i: int| 0 <= i < hs.len() ==> keeps_header(#[trigger] hs[i]) {
            assert(keeps_header(hs[hs.len() - 1]));
            assert forall|i: int| 0 <= i < rest.len() implies keeps_header(#[trigger] rest[i]) by {
                assert(rest[i] == hs[i]);
            }
            assert(fr == rest);
            assert(non_length_headers(hs) == rest.push(hs.last()));
            assert(rest.push(hs.last()) =~= hs);
        }
    }
}

/// The `content-type` field name as runtime bytes.
pub fn content_type_bytes() -> (r: Vec<u8>)
    ensures
        r@ == content_type_name(),
{
    let mut v: Vec<u8> = Vec::new();
    v.push(99u8);
    v.push(111u8);
    v.push(110u8);
    v.push(116u8);
    v.push(101u8);
    v.push(110u8);
    v.push(116u8);
    v.push(45u8);
    v.push(116u8);
    v.push(121u8);
    v.push(112u8);
    v.push(101u8);
    proof {
        assert(v@ =~= content_type_name());
    }
    v
}

/// The `content-length` field name as runtime bytes.
pub fn content_length_bytes() -> (r: Vec<u8>)
    ensures
        r@ == content_length_name(),
{
    let mut v: Vec<u8> = Vec::new();
    v.push(99u8);
    v.push(111u8);
    v.push(110u8);
    v.push(116u8);
    v.push(101u8);
    v.push(110u8);
    v.push(116u8);
    v.push(45u8);
    v.push(108u8);
    v.push(101u8);
    v.push(110u8);
    v.push(103u8);
    v.push(116u8);
    v.push(104u8);
    proof {
        assert(v@ =~= content_length_name());
    }
    v
}

/// The HTML MIME token as runtime bytes.
pub fn html_token_bytes() -> (r: Vec<u8>)
    ensures
        r@ == html_token(),
{
    let mut v: Vec<u8> = Vec::new();
    v.push(116u8);
    v.push(101u8);
    v.push(120u8);
    v.push(116u8);
    v.push(47u8);
    v.push(104u8);
    v.push(116u8);
    v.push(109u8);
    v.push(108u8);
    proof {
        assert(v@ =~= html_token());
    }
    v
}

/// Whether two byte buffers hold the same bytes.
pub fn bytes_eq(a: &Vec<u8>, b: &Vec<u8>) -> (r: bool)
    ensures
        r == (a@ == b@),
{
    if a.len() != b.len() {
        return false;
    }
    let mut i: usize = 0;
    while i < a.len()
        invariant
            a@.len() == b@.len(),
            i <= a@.len(),
            forall|j: int| 0 <= j < i ==> a@[j] == b@[j],
        decreases a@.len() - i,
    {
        if a[i] != b[i] {
            return false;
        }
        i += 1;
    }
    proof {
        assert(a@ =~= b@);
    }
    true
}

/// Whether `needle` stands in `hay` starting at `pos`.
fn matches_at(hay: &Vec<u8>, needle: &Vec<u8>, pos: usize) -> (r: bool)
    requires
        pos + needle@.len() <= hay@.len(),
    ensures
        r == (hay@.subrange(pos as int, pos + needle@.len()) == needle@),
{
    let ghost sub = hay@.subrange(pos as int, pos + needle@.len());
    let hay_len = hay.len();
    let mut j: usize = 0;
    while j < needle.len()
        invariant
            pos + needle@.len() <= hay@.len(),
            hay_len == hay@.len(),
            j <= needle@.len(),
            sub == hay@.subrange(pos as int, pos + needle@.len()),
            forall|k: int| 0 <= k < j ==> hay@[pos + k] == needle@[k],
        decreases needle@.len() - j,
    {
        if hay[pos + j] != needle[j] {
            proof {
                assert(sub[j as int] == hay@[pos + j]);
            }
            return false;
        }
        j += 1;
    }
    proof {
        assert(sub =~= needle@);
    }
    true
}

/// Whether `needle` occurs anywhere inside `hay`.
pub fn contains_needle(hay: &Vec<u8>, needle: &Vec<u8>) -> (r: bool)
    ensures
        r == contains_bytes(hay@, needle@),
{
    if needle.len() > hay.len() {
        return false;
    }
    let last = hay.len() - needle.len();
    let mut i: usize = 0;
    loop
        invariant
            needle@.len() <= hay@.len(),
            last == hay@.len() - needle@.len(),
            0 <= i <= last,
            forall|k: int|
                0 <= k < i ==> #[trigger] hay@.subrange(k, k + needle@.len()) != needle@,
        decreases last - i,
    {
        if matches_at(hay, needle, i) {
            return true;
        }
        if i == last {
            proof {
                assert(forall|k: int|
                    0 <= k && k + needle@.len() <= hay@.len() ==> #[trigger] hay@.subrange(
                        k,
                        k + needle@.len(),
                    ) != needle@);
            }
            return false;
        }
        i += 1;
    }
}

/// The position of the first header with the given name, if any.
fn find_first(headers: &Vec<HeaderField>, name: &Vec<u8>) -> (r: Option<usize>)
    ensures
        (r matches Option::Some(i) ==> i < headers@.len() && headers@[i as int].name@ == name@
            && first_header_value(headers@, name@) == Option::Some(
            headers@[i as int].value@,
        )),
        (r is None ==> first_header_value(headers@, name@) is None),
{
    let mut i: usize = 0;
    proof {
        assert(headers@.skip(0) =~= headers@);
    }
    while i < headers.len()
        invariant
            i <= headers@.len(),
            first_header_value(headers@, name@) == first_header_value(
                headers@.skip(i as int),
                name@,
            ),
        decreases headers@.len() - i,
    {
        let h = &headers[i];
        proof {
            assert(headers@.skip(i as int)[0] == headers@[i as int]);
            assert(headers@.skip(i as int).drop_first() =~= headers@.skip(i + 1));
        }
        if bytes_eq(&h.name, name) {
            return Option::Some(i);
        }
        i += 1;
    }
    proof {
        assert(headers@.skip(headers@.len() as int) =~= Seq::<HeaderField>::empty());
    }
    Option::None
}

/// Whether every byte of the buffer is visible ASCII.
fn all_visible(v: &Vec<u8>) -> (r: bool)
    ensures
        r == valid_header_text(v@),
{
    let mut i: usize = 0;
    while i < v.len()
        invariant
            i <= v@.len(),
            forall|j: int| 0 <= j < i ==> is_visible_ascii_byte(v@[j]),
        decreases v@.len() - i,
    {
        let b = v[i];
        if !((32 <= b && b < 127) || b == 9) {
            return false;
        }
        i += 1;
    }
    true
}

/// The content-type gate: a response may be transformed only when its first
/// `content-type` header is textual and names HTML.
pub fn is_eligible(headers: &Vec<HeaderField>) -> (r: bool)
    ensures
        r == eligible(headers@),
{
    let name = content_type_bytes();
    match find_first(headers, &name) {
        Option::Some(i) => {
            let value = &headers[i].value;
            let token = html_token_bytes();
            all_visible(value) && contains_needle(value, &token)
        },
        Option::None => false,
    }
}

/// Drops every `content-length` entry, keeping all other headers in order.
/// The original length no longer applies once the body is rewritten.
pub fn remove_content_length(headers: Vec<HeaderField>) -> (r: Vec<HeaderField>)
    ensures
        r@ == non_length_headers(headers@),
{
    let ghost orig = headers@;
    let mut rest = headers;
    let cl = content_length_bytes();
    let mut out: Vec<HeaderField> = Vec::new();
    let ghost mut i: int = 0;
    while rest.len() > 0
        invariant
            0 <= i <= orig.len(),
            rest@ == orig.skip(i),
            out@ == non_length_headers(orig.take(i)),
            cl@ == content_length_name(),
        decreases rest@.len(),
    {
        let h = rest.remove(0);
        proof {
            assert(orig.skip(i)[0] == orig[i]);
            assert(orig.skip(i).remove(0) =~= orig.skip(i + 1));
        }
        if !bytes_eq(&h.name, &cl) {
            out.push(h);
        }
        proof {
            reveal(Seq::filter);
            let longer = orig.take(i + 1);
            assert(longer.drop_last() =~= orig.take(i));
            assert(longer.last() == orig[i]);
            i = i + 1;
        }
    }
    proof {
        assert(orig.skip(i).len() == 0);
        assert(orig.take(orig.len() as int) =~= orig);
    }
    out
}

} // verus!
