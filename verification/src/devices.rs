//! Mouse devices: what is known of one, and how it is read out of the raw
//! texts of the device registry.

use crate::search::{first_where, lemma_first_is, lemma_first_where};
use crate::text::{
    chars_of, clone_text, find_chars, find_text, occurs_at, text_of, to_upper, upper, upper_char,
    view_opt, views,
};
use crate::utf16::{decode_lossy, decoded};
use vstd::prelude::*;
use vstd::slice::slice_subrange;

verus! {

/// A mouse that is plugged in.
#[derive(Debug)]
pub struct Device {
    /// Tells two devices of one kind apart.
    pub instance_id: String,
    /// Vendor id, four upper-case hexadecimal digits; some devices have none.
    pub vid: Option<String>,
    /// Product id, likewise.
    pub pid: Option<String>,
    /// The name to show.
    pub name: String,
}

impl Clone for Device {
    fn clone(&self) -> (r: Self)
        ensures
            r == *self,
    {
        Device {
            instance_id: self.instance_id.clone(),
            vid: clone_text(&self.vid),
            pid: clone_text(&self.pid),
            name: self.name.clone(),
        }
    }
}

pub open spec fn is_hex_digit(c: char) -> bool {
    '0' <= c <= '9' || 'a' <= c <= 'f' || 'A' <= c <= 'F'
}

/// The first four characters, where they are hexadecimal digits.
pub open spec fn hex4(s: Seq<char>) -> Option<Seq<char>> {
    if s.len() >= 4 && is_hex_digit(s[0]) && is_hex_digit(s[1]) && is_hex_digit(s[2])
        && is_hex_digit(s[3]) {
        Some(s.take(4))
    } else {
        None
    }
}

/// The four hexadecimal digits behind the first `tag`.
pub open spec fn tagged_id(s: Seq<char>, tag: Seq<char>) -> Option<Seq<char>> {
    match find_text(s, tag) {
        Some(i) => hex4(s.skip(i + tag.len())),
        None => None,
    }
}

/// The vendor and product id that a hardware id such as
/// `HID\VID_046D&PID_C52B&MI_02` carries, in upper case.
pub open spec fn ids_of(hwid: Seq<char>) -> Option<(Seq<char>, Seq<char>)> {
    match (tagged_id(upper(hwid), "VID_"@), tagged_id(upper(hwid), "PID_"@)) {
        (Some(v), Some(p)) => Some((v, p)),
        _ => None,
    }
}

/// The ids that the first hardware id with both of them carries.
pub open spec fn first_ids(hwids: Seq<Seq<char>>) -> Option<(Seq<char>, Seq<char>)> {
    match first_where(hwids, |h: Seq<char>| ids_of(h) is Some) {
        Some(i) => ids_of(hwids[i]),
        None => None,
    }
}

fn hex_digit(c: char) -> (r: bool)
    ensures
        r == is_hex_digit(c),
{
    ('0' <= c && c <= '9') || ('a' <= c && c <= 'f') || ('A' <= c && c <= 'F')
}

/// The first four characters, where they are hexadecimal digits.
pub fn take_hex4(s: &str) -> (r: Option<String>)
    ensures
        view_opt(r) == hex4(s@),
{
    let v = chars_of(s);
    if v.len() >= 4 && hex_digit(v[0]) && hex_digit(v[1]) && hex_digit(v[2]) && hex_digit(v[3]) {
        let h = text_of(&v, 0, 4);
        assert(h@ =~= s@.take(4));
        Some(h)
    } else {
        None
    }
}

fn take_tagged_id(up: &str, tag: &str) -> (r: Option<String>)
    ensures
        view_opt(r) == tagged_id(up@, tag@),
{
    let v = chars_of(up);
    let t = chars_of(tag);
    match find_chars(&v, &t) {
        Some(i) => {
            let end: usize = v.len();
            let rest = text_of(&v, i + t.len(), end);
            assert(rest@ =~= up@.skip(i + tag@.len()));
            take_hex4(rest.as_str())
        },
        None => None,
    }
}

/// The vendor and product id of a device, from its list of hardware ids: both
/// or neither.
pub fn parse_vid_pid(hwids: &Vec<String>) -> (r: (Option<String>, Option<String>))
    ensures
        match first_ids(views(hwids@)) {
            Some((v, p)) => view_opt(r.0) == Some(v) && view_opt(r.1) == Some(p),
            None => r.0 is None && r.1 is None,
        },
{
    let ghost all = views(hwids@);
    let ghost p = |h: Seq<char>| ids_of(h) is Some;
    let mut i: usize = 0;
    while i < hwids.len()
        invariant
            i <= hwids@.len(),
            all == views(hwids@),
            p == (|h: Seq<char>| ids_of(h) is Some),
            forall|j: int| 0 <= j < i ==> !p(#[trigger] all[j]),
        decreases hwids@.len() - i,
    {
        let up = to_upper(hwids[i].as_str());
        let vid = take_tagged_id(up.as_str(), "VID_");
        let pid = take_tagged_id(up.as_str(), "PID_");
        assert(all[i as int] == hwids@[i as int]@);
        if vid.is_some() && pid.is_some() {
            proof {
                lemma_first_is(all, p, i as int);
            }
            return (vid, pid);
        }
        i = i + 1;
    }
    proof {
        lemma_first_where(all, p);
    }
    (None, None)
}

/// The units up to the first zero, or all of them.
pub open spec fn up_to_zero(u: Seq<u16>) -> Seq<u16> {
    match first_where(u, |c: u16| c == 0) {
        Some(i) => u.take(i),
        None => u,
    }
}

/// The texts of a list in which a zero ends each text and an empty text ends
/// the list. A text that no zero ends is left out.
pub open spec fn zero_ended_texts(u: Seq<u16>) -> Seq<Seq<char>>
    decreases u.len(),
{
    match first_where(u, |c: u16| c == 0) {
        Some(i) => if 0 < i < u.len() {
            seq![decoded(u.take(i))] + zero_ended_texts(u.skip(i + 1))
        } else {
            seq![]
        },
        None => seq![],
    }
}

/// The text of a registry string: what stands before the first zero.
pub fn registry_string(buf: &[u16]) -> (r: String)
    ensures
        r@ == decoded(up_to_zero(buf@)),
{
    let ghost p = |c: u16| c == 0;
    let mut i: usize = 0;
    while i < buf.len()
        invariant
            i <= buf@.len(),
            p == (|c: u16| c == 0),
            forall|j: int| 0 <= j < i ==> !p(#[trigger] buf@[j]),
        decreases buf@.len() - i,
    {
        if buf[i] == 0 {
            proof {
                lemma_first_is(buf@, p, i as int);
            }
            let part = slice_subrange(buf, 0, i);
            assert(part@ =~= buf@.take(i as int));
            return decode_lossy(part);
        }
        i = i + 1;
    }
    proof {
        lemma_first_where(buf@, p);
    }
    decode_lossy(buf)
}

/// The texts of a registry list of strings.
pub fn registry_strings(buf: &[u16]) -> (r: Vec<String>)
    ensures
        views(r@) == zero_ended_texts(buf@),
{
    let ghost p = |c: u16| c == 0;
    let mut out: Vec<String> = Vec::new();
    let mut start: usize = 0;
    let mut i: usize = 0;
    assert(buf@.skip(0) =~= buf@);
    assert(views(out@) + zero_ended_texts(buf@) =~= zero_ended_texts(buf@));
    while i < buf.len()
        invariant
            start <= i <= buf@.len(),
            p == (|c: u16| c == 0),
            forall|j: int| start <= j < i ==> !p(#[trigger] buf@[j]),
            views(out@) + zero_ended_texts(buf@.skip(start as int)) == zero_ended_texts(buf@),
        decreases buf@.len() - i,
    {
        if buf[i] == 0 {
            let ghost rest = buf@.skip(start as int);
            proof {
                assert forall|j: int| 0 <= j < i - start implies !p(#[trigger] rest[j]) by {
                    assert(rest[j] == buf@[start + j]);
                }
                lemma_first_is(rest, p, i - start);
            }
            if i == start {
                assert(views(out@) + seq![] =~= views(out@));
                return out;
            }
            let part = slice_subrange(buf, start, i);
            let ghost before = views(out@);
            let ghost n = i - start;
            out.push(decode_lossy(part));
            start = i + 1;
            proof {
                assert(part@ =~= rest.take(n));
                assert(rest.skip(n + 1) =~= buf@.skip(start as int));
                assert(views(out@) =~= before.push(decoded(part@)));
                assert(before + zero_ended_texts(rest) =~= views(out@) + zero_ended_texts(
                    buf@.skip(start as int),
                ));
            }
        }
        i = i + 1;
    }
    proof {
        let rest = buf@.skip(start as int);
        lemma_first_where(rest, p);
        assert forall|j: int| 0 <= j < rest.len() implies !p(#[trigger] rest[j]) by {
            assert(rest[j] == buf@[start + j]);
        }
        assert(views(out@) + seq![] =~= views(out@));
    }
    out
}

/// The units of an instance id, from the buffer it was read into and the
/// number of units that were read: without the zero at their end.
pub open spec fn instance_id_units(buf: Seq<u16>, size: u32) -> Seq<u16> {
    let all = if size <= buf.len() { buf.take(size as int) } else { buf };
    if all.len() > 0 && all.last() == 0 {
        all.drop_last()
    } else {
        all
    }
}

/// The instance id that was read into `buf` with `size` units; `None` when
/// nothing was read.
pub fn instance_id_text(buf: &[u16], size: u32) -> (r: Option<String>)
    ensures
        size == 0 ==> r is None,
        size > 0 ==> view_opt(r) == Some(decoded(instance_id_units(buf@, size))),
{
    if size == 0 {
        return None;
    }
    let len: usize = if buf.len() as u64 <= size as u64 { buf.len() } else { size as usize };
    let end: usize = if len > 0 && buf[len - 1] == 0 { len - 1 } else { len };
    let part = slice_subrange(buf, 0, end);
    assert(part@ =~= instance_id_units(buf@, size));
    Some(decode_lossy(part))
}

/// The name of a device: the friendly one, else the description, else the id.
pub open spec fn name_to_show(
    friendly: Option<Seq<char>>,
    description: Option<Seq<char>>,
    id: Seq<char>,
) -> Seq<char> {
    match (friendly, description) {
        (Some(n), _) => n,
        (None, Some(n)) => n,
        (None, None) => id,
    }
}

/// The device that the registry describes by these texts. Without a friendly
/// name the description stands in for it, and without that the instance id.
pub fn describe_device(
    instance_id: Option<String>,
    hwids: &Vec<String>,
    friendly: Option<String>,
    description: Option<String>,
) -> (r: Device)
    ensures
        r.instance_id@ == (match instance_id {
            Some(id) => id@,
            None => seq![],
        }),
        match first_ids(views(hwids@)) {
            Some((v, p)) => view_opt(r.vid) == Some(v) && view_opt(r.pid) == Some(p),
            None => r.vid is None && r.pid is None,
        },
        r.name@ == name_to_show(view_opt(friendly), view_opt(description), r.instance_id@),
{
    let instance_id = match instance_id {
        Some(id) => id,
        None => String::new(),
    };
    let (vid, pid) = parse_vid_pid(hwids);
    let name = match friendly {
        Some(n) => n,
        None => match description {
            Some(n) => n,
            None => instance_id.clone(),
        },
    };
    Device { instance_id, vid, pid, name }
}

/// An upper-case hexadecimal digit.
pub open spec fn is_upper_hex(c: char) -> bool {
    '0' <= c <= '9' || 'A' <= c <= 'F'
}

proof fn lemma_tagged_id_is_hex(hwid: Seq<char>, tag: Seq<char>)
    ensures
        tagged_id(upper(hwid), tag) matches Some(id) ==> id.len() == 4 && forall|k: int|
            0 <= k < 4 ==> is_upper_hex(#[trigger] id[k]),
{
    let s = upper(hwid);
    let places = Seq::new((s.len() + 1) as nat, |i: int| i);
    let p = |i: int| occurs_at(s, tag, i);
    lemma_first_where(places, p);
    if let Some(id) = tagged_id(s, tag) {
        let i = find_text(s, tag)->0;
        assert(p(places[i]));
        let rest = s.skip(i + tag.len());
        assert forall|k: int| 0 <= k < 4 implies is_upper_hex(#[trigger] id[k]) by {
            assert(id[k] == rest[k]);
            assert(rest[k] == s[i + tag.len() + k]);
            assert(s[i + tag.len() + k] == upper_char(hwid[i + tag.len() + k]));
            assert(is_hex_digit(rest[0]) && is_hex_digit(rest[1]) && is_hex_digit(rest[2])
                && is_hex_digit(rest[3]));
        }
    }
}

/// The ids of a device are four upper-case hexadecimal digits each.
pub proof fn law_ids_are_four_upper_case_digits(hwids: Seq<Seq<char>>)
    ensures
        first_ids(hwids) matches Some((v, p)) ==> {
            &&& v.len() == 4
            &&& p.len() == 4
            &&& forall|k: int| 0 <= k < 4 ==> is_upper_hex(#[trigger] v[k])
            &&& forall|k: int| 0 <= k < 4 ==> is_upper_hex(#[trigger] p[k])
        },
{
    if let Some(i) = first_where(hwids, |h: Seq<char>| ids_of(h) is Some) {
        lemma_tagged_id_is_hex(hwids[i], "VID_"@);
        lemma_tagged_id_is_hex(hwids[i], "PID_"@);
    }
}

/// The character at `i` and the three behind it are the given ones.
pub open spec fn tag_at(s: Seq<char>, i: int, a: char, b: char, c: char) -> bool {
    &&& 0 <= i
    &&& i + 4 <= s.len()
    &&& s[i] == a
    &&& s[i + 1] == b
    &&& s[i + 2] == c
    &&& s[i + 3] == '_'
}

proof fn lemma_tagged_id_stands_behind(s: Seq<char>, tag: Seq<char>, i: int)
    requires
        tag.len() == 4,
        0 <= i,
        i + 8 <= s.len(),
        s.subrange(i, i + 4) == tag,
        forall|j: int| 0 <= j < i ==> #[trigger] s.subrange(j, j + 4) != tag,
        forall|k: int| 4 <= k < 8 ==> is_hex_digit(#[trigger] s[i + k]),
    ensures
        tagged_id(s, tag) == Some(s.subrange(i + 4, i + 8)),
{
    let places = Seq::new((s.len() + 1) as nat, |i: int| i);
    let p = |i: int| occurs_at(s, tag, i);
    assert(p(places[i]));
    assert forall|j: int| 0 <= j < i implies !p(#[trigger] places[j]) by {
        assert(s.subrange(j, j + 4) != tag);
    }
    lemma_first_is(places, p, i);
    let rest = s.skip(i + 4);
    assert(rest[0] == s[i + 4] && rest[1] == s[i + 5] && rest[2] == s[i + 6] && rest[3] == s[i
        + 7]);
    assert(rest.take(4) =~= s.subrange(i + 4, i + 8));
}

proof fn lemma_tag_chars(s: Seq<char>, tag: Seq<char>, j: int)
    requires
        tag.len() == 4,
        tag[3] == '_',
        0 <= j,
        j + 4 <= s.len(),
    ensures
        s.subrange(j, j + 4) == tag <==> tag_at(s, j, tag[0], tag[1], tag[2]),
{
    let t = s.subrange(j, j + 4);
    assert(t[0] == s[j] && t[1] == s[j + 1] && t[2] == s[j + 2] && t[3] == s[j + 3]);
    if tag_at(s, j, tag[0], tag[1], tag[2]) {
        assert(t =~= tag);
    }
}

/// The vendor id is what stands behind the first `VID_`, and the product id what
/// stands behind the first `PID_`, wherever in the hardware id they are, in
/// letters of whatever case.
pub proof fn law_ids_stand_behind_their_tags(hwid: Seq<char>, i: int, j: int)
    requires
        ({
            let s = upper(hwid);
            &&& tag_at(s, i, 'V', 'I', 'D')
            &&& tag_at(s, j, 'P', 'I', 'D')
            &&& forall|k: int| 0 <= k < i ==> !#[trigger] tag_at(s, k, 'V', 'I', 'D')
            &&& forall|k: int| 0 <= k < j ==> !#[trigger] tag_at(s, k, 'P', 'I', 'D')
            &&& i + 8 <= s.len()
            &&& j + 8 <= s.len()
            &&& forall|k: int| 4 <= k < 8 ==> is_upper_hex(#[trigger] s[i + k])
            &&& forall|k: int| 4 <= k < 8 ==> is_upper_hex(#[trigger] s[j + k])
        }),
    ensures
        ids_of(hwid) == Some(
            (upper(hwid).subrange(i + 4, i + 8), upper(hwid).subrange(j + 4, j + 8)),
        ),
{
    let s = upper(hwid);
    reveal_strlit("VID_");
    reveal_strlit("PID_");
    let v = "VID_"@;
    let p = "PID_"@;
    lemma_tag_chars(s, v, i);
    lemma_tag_chars(s, p, j);
    assert forall|k: int| 0 <= k < i implies #[trigger] s.subrange(k, k + 4) != v by {
        lemma_tag_chars(s, v, k);
        assert(!tag_at(s, k, 'V', 'I', 'D'));
    }
    assert forall|k: int| 0 <= k < j implies #[trigger] s.subrange(k, k + 4) != p by {
        lemma_tag_chars(s, p, k);
        assert(!tag_at(s, k, 'P', 'I', 'D'));
    }
    lemma_tagged_id_stands_behind(s, v, i);
    lemma_tagged_id_stands_behind(s, p, j);
}

/// A hardware id in which one of the two tags is missing gives no ids at all, and
/// the case of its letters does not matter.
pub proof fn law_ids_come_as_a_pair(hwid: Seq<char>, other: Seq<char>)
    ensures
        (forall|k: int| !#[trigger] tag_at(upper(hwid), k, 'V', 'I', 'D')) ==> ids_of(hwid) is None,
        (forall|k: int| !#[trigger] tag_at(upper(hwid), k, 'P', 'I', 'D')) ==> ids_of(hwid) is None,
        upper(hwid) == upper(other) ==> ids_of(hwid) == ids_of(other),
{
    reveal_strlit("VID_");
    reveal_strlit("PID_");
    lemma_tag_found(upper(hwid), "VID_"@);
    lemma_tag_found(upper(hwid), "PID_"@);
}

proof fn lemma_tag_found(s: Seq<char>, tag: Seq<char>)
    requires
        tag.len() == 4,
        tag[3] == '_',
    ensures
        tagged_id(s, tag) is Some ==> exists|k: int| #[trigger]
            tag_at(s, k, tag[0], tag[1], tag[2]),
{
    let places = Seq::new((s.len() + 1) as nat, |i: int| i);
    let p = |i: int| occurs_at(s, tag, i);
    lemma_first_where(places, p);
    if tagged_id(s, tag) is Some {
        let i = find_text(s, tag)->0;
        assert(p(places[i]));
        lemma_tag_chars(s, tag, i);
    }
}

/// Of several hardware ids the first that carries ids counts.
pub proof fn law_first_hardware_id_counts(h: Seq<char>, rest: Seq<Seq<char>>)
    ensures
        ids_of(h) is Some ==> first_ids(seq![h] + rest) == ids_of(h),
        ids_of(h) is None ==> first_ids(seq![h] + rest) == first_ids(rest),
        first_ids(seq![]) is None,
{
    let p = |h: Seq<char>| ids_of(h) is Some;
    let all = seq![h] + rest;
    lemma_first_where(rest, p);
    lemma_first_where(all, p);
    lemma_first_where(Seq::<Seq<char>>::empty(), p);
    if p(h) {
        lemma_first_is(all, p, 0);
    } else {
        match first_where(rest, p) {
            Some(i) => {
                assert forall|j: int| 0 <= j < i + 1 implies !p(#[trigger] all[j]) by {
                    if j > 0 {
                        assert(all[j] == rest[j - 1]);
                    }
                }
                assert(all[i + 1] == rest[i]);
                lemma_first_is(all, p, i + 1);
            },
            None => {
                assert forall|j: int| 0 <= j < all.len() implies !p(#[trigger] all[j]) by {
                    if j > 0 {
                        assert(all[j] == rest[j - 1]);
                    }
                }
            },
        }
    }
}

/// A registry string ends before its first zero, whatever follows.
pub proof fn law_zero_ends_a_string(t: Seq<u16>, rest: Seq<u16>)
    requires
        forall|j: int| 0 <= j < t.len() ==> #[trigger] t[j] != 0,
    ensures
        up_to_zero(t) == t,
        up_to_zero(t.push(0) + rest) == t,
{
    let p = |c: u16| c == 0;
    let s = t.push(0) + rest;
    lemma_first_where(t, p);
    assert forall|j: int| 0 <= j < t.len() implies !p(#[trigger] s[j]) by {
        assert(s[j] == t[j]);
    }
    lemma_first_is(s, p, t.len() as int);
    assert(s.take(t.len() as int) =~= t);
}

/// A list of registry strings is read back text by text: the first text of a list
/// is its first entry and the rest of the list gives the others. An empty text
/// ends the list, and a text that no zero ends is left out.
pub proof fn law_lists_are_read_text_by_text(t: Seq<u16>, rest: Seq<u16>)
    requires
        forall|j: int| 0 <= j < t.len() ==> #[trigger] t[j] != 0,
    ensures
        t.len() > 0 ==> zero_ended_texts(t.push(0) + rest) == seq![decoded(t)]
            + zero_ended_texts(rest),
        zero_ended_texts(seq![0u16] + rest) == Seq::<Seq<char>>::empty(),
        zero_ended_texts(t) == Seq::<Seq<char>>::empty(),
{
    let p = |c: u16| c == 0;
    let s = t.push(0) + rest;
    lemma_first_where(t, p);
    assert forall|j: int| 0 <= j < t.len() implies !p(#[trigger] s[j]) by {
        assert(s[j] == t[j]);
    }
    lemma_first_is(s, p, t.len() as int);
    assert(s.take(t.len() as int) =~= t);
    assert(s.skip(t.len() as int + 1) =~= rest);
    lemma_first_is(seq![0u16] + rest, p, 0);
}

/// An instance id is what was read, without the zero behind it and without what
/// the buffer held before.
pub proof fn law_instance_id_is_what_was_read(id: Seq<u16>, junk: Seq<u16>, size: u32)
    requires
        id.len() > 0,
        id.last() != 0,
    ensures
        size == id.len() ==> instance_id_units(id + junk, size) == id,
        size == id.len() + 1 ==> instance_id_units(id.push(0) + junk, size) == id,
        size > id.len() ==> instance_id_units(id, size) == id,
{
    if size == id.len() {
        assert((id + junk).take(size as int) =~= id);
    }
    if size == id.len() + 1 {
        let b = id.push(0) + junk;
        assert(b.take(size as int) =~= id.push(0));
        assert(id.push(0).drop_last() =~= id);
    }
}

/// The name is the friendly one wherever there is one, and never the id where
/// there is another name.
pub proof fn law_best_name_is_shown(
    friendly: Option<Seq<char>>,
    description: Option<Seq<char>>,
    id: Seq<char>,
)
    ensures
        friendly is Some ==> name_to_show(friendly, description, id) == friendly->0,
        friendly is None && description is Some ==> name_to_show(friendly, description, id)
            == description->0,
        name_to_show(None, None, id) == id,
{
}

} // verus!
