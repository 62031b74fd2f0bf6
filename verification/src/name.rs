use vstd::prelude::*;
use vstd::slice::{slice_subrange, slice_to_vec};
use vstd::string::StringSliceAdditionalSpecFns;
use crate::error::{DecodeError, DecodeResult};

verus! {

/// The byte that separates labels in the dotted text form of a name.
pub const LABEL_SEPARATOR: u8 = 46;

/// The most bytes one wire-format label may carry.
pub const MAX_LABEL_LEN: usize = 63;

/// A wire-format label holds at least one and at most 63 bytes.
pub open spec fn wf_label(l: Seq<u8>) -> bool {
    1 <= l.len() <= 63
}

/// The index of the first label separator in `s`, or `s.len()` if there
/// is none.
pub open spec fn first_dot(s: Seq<u8>) -> int
    decreases s.len(),
{
    if s.len() == 0 {
        0
    } else if s[0] == LABEL_SEPARATOR {
        0
    } else {
        1 + first_dot(s.drop_first())
    }
}

/// `first_dot` never runs past the end of the sequence.
pub proof fn lemma_first_dot_bounds(s: Seq<u8>)
    ensures
        0 <= first_dot(s) <= s.len(),
    decreases s.len(),
{
    if s.len() > 0 && s[0] != LABEL_SEPARATOR {
        lemma_first_dot_bounds(s.drop_first());
    }
}

/// Splits a dotted text name into its labels: `None` when some label is
/// empty or longer than a wire-format label allows.
pub open spec fn spec_split_labels(s: Seq<u8>) -> Option<Seq<Seq<u8>>>
    decreases s.len(),
    via spec_split_labels_decreases
{
    let d = first_dot(s);
    if d == s.len() {
        if wf_label(s) {
            Some(seq![s])
        } else {
            None
        }
    } else if !wf_label(s.take(d)) {
        None
    } else {
        match spec_split_labels(s.skip(d + 1)) {
            Some(rest) => Some(seq![s.take(d)] + rest),
            None => None,
        }
    }
}

#[via_fn]
proof fn spec_split_labels_decreases(s: Seq<u8>) {
    lemma_first_dot_bounds(s);
}

/// Every label a successful split yields fits a wire-format label.
pub proof fn lemma_split_labels_wf(s: Seq<u8>)
    ensures
        spec_split_labels(s) matches Some(ls) ==> forall|i: int|
            0 <= i < ls.len() ==> wf_label(#[trigger] ls[i]),
    decreases s.len(),
{
    lemma_first_dot_bounds(s);
    let d = first_dot(s);
    if d == s.len() {
    } else if !wf_label(s.take(d)) {
    } else {
        lemma_split_labels_wf(s.skip(d + 1));
        match spec_split_labels(s.skip(d + 1)) {
            Some(rest) => {
                let ls = seq![s.take(d)] + rest;
                assert forall|i: int| 0 <= i < ls.len() implies wf_label(#[trigger] ls[i]) by {
                    if i == 0 {
                        assert(ls[0] == s.take(d));
                    } else {
                        assert(ls[i] == rest[i - 1]);
                    }
                }
            },
            None => {},
        }
    }
}

/// What parsing a dotted text name against an optional origin yields: the
/// labels of the text, with the origin's labels appended unless the text
/// is absolute (ends in a separator). An empty text names the origin
/// itself; the absolute root "." has no labels at all.
pub open spec fn spec_parse_name(s: Seq<u8>, origin: Seq<Seq<u8>>) -> Option<Seq<Seq<u8>>> {
    if s.len() == 0 {
        Some(origin)
    } else if s.last() == LABEL_SEPARATOR {
        if s.len() == 1 {
            Some(Seq::empty())
        } else {
            spec_split_labels(s.take(s.len() - 1))
        }
    } else {
        match spec_split_labels(s) {
            Some(ls) => Some(ls + origin),
            None => None,
        }
    }
}

/// Maps an uppercase ASCII letter to its lowercase form and leaves every
/// other byte alone.
pub open spec fn ascii_lower(b: u8) -> u8 {
    if 65 <= b <= 90 {
        (b + 32) as u8
    } else {
        b
    }
}

/// A label with every ASCII letter lowercased.
pub open spec fn lower_label(l: Seq<u8>) -> Seq<u8> {
    l.map_values(|b: u8| ascii_lower(b))
}

/// The canonical wire form of a sequence of labels: each label as a
/// length byte followed by its lowercased bytes, closed by a zero byte.
pub open spec fn canonical_wire(labels: Seq<Seq<u8>>) -> Seq<u8>
    decreases labels.len(),
{
    if labels.len() == 0 {
        seq![0u8]
    } else {
        seq![labels[0].len() as u8] + lower_label(labels[0]) + canonical_wire(labels.drop_first())
    }
}

/// A domain name: a sequence of labels, most specific first, without the
/// trailing empty root label (the root name has no labels).
#[derive(Debug)]
pub struct Name {
    labels: Vec<Vec<u8>>,
}

/// Copies a list of labels byte for byte.
fn clone_labels(labels: &Vec<Vec<u8>>) -> (r: Vec<Vec<u8>>)
    ensures
        r@.map_values(|l: Vec<u8>| l@) == labels@.map_values(|l: Vec<u8>| l@),
{
    let mut r: Vec<Vec<u8>> = Vec::new();
    let mut i: usize = 0;
    while i < labels.len()
        invariant
            i <= labels@.len(),
            r@.len() == i,
            forall|k: int| 0 <= k < i ==> #[trigger] r@[k]@ == labels@[k]@,
        decreases labels@.len() - i,
    {
        let label: Vec<u8> = slice_to_vec(labels[i].as_slice());
        r.push(label);
        i = i + 1;
    }
    proof {
        assert(r@.map_values(|l: Vec<u8>| l@) =~= labels@.map_values(|l: Vec<u8>| l@));
    }
    r
}

impl Clone for Name {
    /// A copy of the name, label for label.
    fn clone(&self) -> (name: Self)
        ensures
            name.spec_labels() == self.spec_labels(),
    {
        Name { labels: clone_labels(&self.labels) }
    }
}

impl Name {
    /// The labels of this name, as byte sequences.
    pub closed spec fn spec_labels(self) -> Seq<Seq<u8>> {
        self.labels@.map_values(|l: Vec<u8>| l@)
    }

    /// Every label of a well-formed name fits a wire-format label.
    pub open spec fn wf(self) -> bool {
        forall|i: int| 0 <= i < self.spec_labels().len() ==> wf_label(#[trigger] self.spec_labels()[i])
    }

    /// The canonical wire form of this name.
    pub open spec fn spec_canonical_wire(self) -> Seq<u8> {
        canonical_wire(self.spec_labels())
    }

    /// The root name, with no labels.
    pub fn new() -> (name: Name)
        ensures
            name.spec_labels() == Seq::<Seq<u8>>::empty(),
            name.wf(),
    {
        let name = Name { labels: Vec::new() };
        proof {
            assert(name.spec_labels() =~= Seq::<Seq<u8>>::empty());
        }
        name
    }

    /// Appends one more label, given as text.
    pub fn label(self, label: &str) -> (name: Name)
        requires
            1 <= label.spec_bytes().len() <= 63,
        ensures
            name.spec_labels() == self.spec_labels().push(label.spec_bytes()),
            self.wf() ==> name.wf(),
    {
        let mut name = self;
        let bytes = slice_to_vec(label.as_bytes());
        name.labels.push(bytes);
        proof {
            assert(name.spec_labels() =~= self.spec_labels().push(label.spec_bytes()));
        }
        name
    }

    /// Parses a dotted text name, appending the origin's labels unless the
    /// text is absolute. Fails exactly when some label of the text is
    /// empty or longer than a wire-format label allows.
    pub fn parse(s: &str, origin: Option<&Name>) -> (r: DecodeResult<Name>)
        requires
            origin matches Some(o) ==> o.wf(),
        ensures
            r matches Ok(name) ==> {
                &&& Some(name.spec_labels()) == spec_parse_name(
                    s.spec_bytes(),
                    spec_origin_labels(origin),
                )
                &&& name.wf()
            },
            r is Err ==> {
                &&& spec_parse_name(s.spec_bytes(), spec_origin_labels(origin)) is None
                &&& r == Err::<Name, DecodeError>(DecodeError::InvalidLabel)
            },
    {
        let bytes: &[u8] = s.as_bytes();
        let n: usize = bytes.len();
        if n == 0 {
            let name = match origin {
                Some(o) => o.clone(),
                None => Name::new(),
            };
            proof {
                assert(name.spec_labels() =~= spec_origin_labels(origin));
            }
            return Ok(name);
        }
        if bytes[n - 1] == LABEL_SEPARATOR {
            if n == 1 {
                let name = Name { labels: Vec::new() };
                proof {
                    assert(name.spec_labels() =~= Seq::<Seq<u8>>::empty());
                }
                return Ok(name);
            }
            let body = slice_subrange(bytes, 0, n - 1);
            proof {
                assert(body@ =~= s.spec_bytes().take(s.spec_bytes().len() - 1));
            }
            match Self::split_labels_from(body, 0) {
                Ok(labels) => {
                    let name = Name { labels };
                    proof {
                        assert(body@.skip(0) =~= body@);
                        lemma_split_labels_wf(body@);
                        let ls = spec_split_labels(body@)->Some_0;
                        assert(ls == name.spec_labels());
                        assert forall|i: int| 0 <= i < name.spec_labels().len() implies wf_label(
                            #[trigger] name.spec_labels()[i],
                        ) by {
                            assert(wf_label(ls[i]));
                        }
                    }
                    Ok(name)
                },
                Err(e) => {
                    proof {
                        assert(body@.skip(0) =~= body@);
                    }
                    Err(e)
                },
            }
        } else {
            match Self::split_labels_from(bytes, 0) {
                Ok(mut labels) => {
                    proof {
                        assert(bytes@.skip(0) =~= bytes@);
                        lemma_split_labels_wf(bytes@);
                    }
                    let ghost parsed = labels@.map_values(|l: Vec<u8>| l@);
                    match origin {
                        Some(o) => {
                            let mut tail = clone_labels(&o.labels);
                            labels.append(&mut tail);
                        },
                        None => {},
                    }
                    let name = Name { labels };
                    proof {
                        assert(name.spec_labels() =~= parsed + spec_origin_labels(origin));
                        assert forall|i: int| 0 <= i < name.spec_labels().len() implies wf_label(
                            #[trigger] name.spec_labels()[i],
                        ) by {
                            if i < parsed.len() {
                                assert(name.spec_labels()[i] == parsed[i]);
                            } else {
                                assert(name.spec_labels()[i] == spec_origin_labels(origin)[i
                                    - parsed.len()]);
                            }
                        }
                        assert(name.wf());
                    }
                    Ok(name)
                },
                Err(e) => {
                    proof {
                        assert(bytes@.skip(0) =~= bytes@);
                    }
                    Err(e)
                },
            }
        }
    }

    /// Splits `bytes[start..]` on label separators; mirrors
    /// `spec_split_labels` on that suffix.
    fn split_labels_from(bytes: &[u8], start: usize) -> (r: DecodeResult<Vec<Vec<u8>>>)
        requires
            start <= bytes@.len(),
        ensures
            r matches Ok(ls) ==> Some(ls@.map_values(|l: Vec<u8>| l@)) == spec_split_labels(
                bytes@.skip(start as int),
            ),
            r is Err ==> {
                &&& spec_split_labels(bytes@.skip(start as int)) is None
                &&& r == Err::<Vec<Vec<u8>>, DecodeError>(DecodeError::InvalidLabel)
            },
        decreases bytes@.len() - start,
    {
        let ghost suffix = bytes@.skip(start as int);
        let n: usize = bytes.len();
        let mut i: usize = start;
        while i < n && bytes[i] != LABEL_SEPARATOR
            invariant
                start <= i <= n,
                n == bytes@.len(),
                forall|k: int| start <= k < i ==> bytes@[k] != LABEL_SEPARATOR,
            decreases n - i,
        {
            i = i + 1;
        }
        proof {
            lemma_first_dot_at(suffix, i - start);
            assert(first_dot(suffix) == i - start);
        }
        let llen = i - start;
        if llen == 0 || llen > MAX_LABEL_LEN {
            proof {
                if i - start < suffix.len() {
                    assert(suffix.take(first_dot(suffix)).len() == i - start);
                }
            }
            return Err(DecodeError::InvalidLabel);
        }
        let label: Vec<u8> = slice_to_vec(slice_subrange(bytes, start, i));
        proof {
            assert(label@ =~= suffix.take(first_dot(suffix)));
        }
        if i == n {
            let mut ls: Vec<Vec<u8>> = Vec::new();
            ls.push(label);
            proof {
                assert(suffix.take(first_dot(suffix)) =~= suffix);
                assert(ls@.map_values(|l: Vec<u8>| l@) =~= seq![suffix]);
            }
            Ok(ls)
        } else {
            match Self::split_labels_from(bytes, i + 1) {
                Ok(mut rest) => {
                    proof {
                        assert(bytes@.skip(i + 1) =~= suffix.skip(first_dot(suffix) + 1));
                    }
                    rest.insert(0, label);
                    proof {
                        assert(rest@.map_values(|l: Vec<u8>| l@) =~= seq![
                            suffix.take(first_dot(suffix)),
                        ] + spec_split_labels(suffix.skip(first_dot(suffix) + 1))->Some_0);
                    }
                    Ok(rest)
                },
                Err(e) => {
                    proof {
                        assert(bytes@.skip(i + 1) =~= suffix.skip(first_dot(suffix) + 1));
                    }
                    Err(e)
                },
            }
        }
    }

    /// Emits this name in canonical wire form: each label as its length
    /// byte and its bytes with ASCII letters lowercased, closed by a zero
    /// byte.
    pub fn emit_canonical(&self) -> (wire: Vec<u8>)
        requires
            self.wf(),
        ensures
            wire@ == self.spec_canonical_wire(),
    {
        let mut wire: Vec<u8> = Vec::new();
        let mut i: usize = 0;
        proof {
            assert(self.spec_labels().skip(0) =~= self.spec_labels());
            assert(wire@ + canonical_wire(self.spec_labels()) =~= canonical_wire(
                self.spec_labels(),
            ));
        }
        while i < self.labels.len()
            invariant
                i <= self.labels@.len(),
                self.wf(),
                wire@ + canonical_wire(self.spec_labels().skip(i as int))
                    == self.spec_canonical_wire(),
            decreases self.labels@.len() - i,
        {
            let ghost before = self.spec_labels().skip(i as int);
            let ghost wire0 = wire@;
            let label: &Vec<u8> = &self.labels[i];
            assert(label@ == self.spec_labels()[i as int]);
            wire.push(label.len() as u8);
            let mut j: usize = 0;
            while j < label.len()
                invariant
                    j <= label@.len(),
                    wf_label(label@),
                    wire@ == wire0 + seq![label@.len() as u8] + lower_label(
                        label@.take(j as int),
                    ),
                decreases label@.len() - j,
            {
                let b = label[j];
                let lb: u8 = if b >= 65 && b <= 90 {
                    b + 32
                } else {
                    b
                };
                wire.push(lb);
                proof {
                    assert(lower_label(label@.take(j + 1)) =~= lower_label(
                        label@.take(j as int),
                    ).push(ascii_lower(label@[j as int])));
                }
                j = j + 1;
            }
            proof {
                assert(label@.take(label@.len() as int) =~= label@);
                assert(before.drop_first() =~= self.spec_labels().skip(i + 1));
                assert(canonical_wire(before) == seq![label@.len() as u8] + lower_label(label@)
                    + canonical_wire(self.spec_labels().skip(i + 1)));
                assert(wire@ + canonical_wire(self.spec_labels().skip(i + 1)) =~= wire0
                    + canonical_wire(before));
            }
            i = i + 1;
        }
        proof {
            assert(self.spec_labels().skip(self.spec_labels().len() as int)
                =~= Seq::<Seq<u8>>::empty());
        }
        wire.push(0);
        proof {
            assert(wire@ =~= self.spec_canonical_wire());
        }
        wire
    }

    /// How many labels this name has.
    pub fn label_count(&self) -> (c: usize)
        ensures
            c == self.spec_labels().len(),
    {
        self.labels.len()
    }
}

/// The labels an optional origin contributes: none when there is no origin.
pub open spec fn spec_origin_labels(origin: Option<&Name>) -> Seq<Seq<u8>> {
    match origin {
        Some(o) => o.spec_labels(),
        None => Seq::empty(),
    }
}

/// `first_dot` finds exactly the position scanned to: no separator lies
/// before `k`, and `k` is either the end or a separator.
proof fn lemma_first_dot_at(s: Seq<u8>, k: int)
    requires
        0 <= k <= s.len(),
        forall|j: int| 0 <= j < k ==> s[j] != LABEL_SEPARATOR,
        k < s.len() ==> s[k] == LABEL_SEPARATOR,
    ensures
        first_dot(s) == k,
    decreases s.len(),
{
    if s.len() == 0 {
    } else if s[0] == LABEL_SEPARATOR {
        assert(k == 0);
    } else {
        assert(k >= 1);
        lemma_first_dot_at(s.drop_first(), k - 1);
    }
}

} // verus!
