use vstd::prelude::*;

verus! {

/// One event of an XML scan, with the parts of it that the decoders read.
#[derive(Clone, Debug)]
pub enum XmlEvent {
    /// An opening tag, with the text of its attributes still unparsed.
    Start { name: Vec<u8>, local_name: Vec<u8>, attrs: Vec<u8> },
    /// A closing tag.
    End { name: Vec<u8> },
    /// A self-closing tag.
    Empty { name: Vec<u8> },
    /// Character data, still escaped.
    Text { raw: Vec<u8> },
    /// The end of the document.
    Eof,
    /// Anything else (declarations, comments, CDATA, processing instructions).
    Other,
}

pub open spec fn tag_t() -> Seq<u8> {
    seq![116u8]
}

pub open spec fn tag_c() -> Seq<u8> {
    seq![99u8]
}

pub open spec fn tag_v() -> Seq<u8> {
    seq![118u8]
}

pub open spec fn tag_row() -> Seq<u8> {
    seq![114u8, 111u8, 119u8]
}

/// The contents of a sequence of byte strings.
pub open spec fn byte_strings(v: Seq<Vec<u8>>) -> Seq<Seq<u8>> {
    v.map_values(|b: Vec<u8>| b@)
}

/// Whether some attribute name begins with `t`.
pub open spec fn has_type_attr(keys: Seq<Seq<u8>>) -> bool {
    exists|i: int| 0 <= i < keys.len() && #[trigger] keys[i].len() > 0 && keys[i][0] == 116u8
}

/// A tag name of one byte.
pub fn name_is1(name: &Vec<u8>, a: u8) -> (r: bool)
    ensures
        r == (name@ == seq![a]),
{
    if name.len() == 1 && name[0] == a {
        assert(name@ =~= seq![a]);
        true
    } else {
        false
    }
}

/// Whether a tag name is `row`.
pub fn name_is_row(name: &Vec<u8>) -> (r: bool)
    ensures
        r == (name@ == tag_row()),
{
    if name.len() == 3 && name[0] == 114u8 && name[1] == 111u8 && name[2] == 119u8 {
        assert(name@ =~= tag_row());
        true
    } else {
        false
    }
}

/// Whether one of the attribute names begins with `t`.
pub fn any_type_attr(keys: &Vec<Vec<u8>>) -> (r: bool)
    ensures
        r == has_type_attr(byte_strings(keys@)),
{
    let mut i: usize = 0;
    while i < keys.len()
        invariant
            i <= keys.len(),
            forall|j: int|
                0 <= j < i ==> !(#[trigger] byte_strings(keys@)[j].len() > 0 && byte_strings(keys@)[j][0] == 116u8),
        decreases keys.len() - i,
    {
        let k = &keys[i];
        if k.len() > 0 && k[0] == 116u8 {
            assert(byte_strings(keys@)[i as int].len() > 0 && byte_strings(keys@)[i as int][0] == 116u8);
            return true;
        }
        i = i + 1;
    }
    false
}

} // verus!
