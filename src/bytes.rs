use vstd::prelude::*;

verus! {

/// The byte strings held by a list, as mathematical sequences.
pub open spec fn key_seq(items: Seq<Vec<u8>>) -> Seq<Seq<u8>> {
    items.map_values(|v: Vec<u8>| v@)
}

/// Compares two byte strings element by element.
pub fn bytes_eq(a: &Vec<u8>, b: &Vec<u8>) -> (r: bool)
    ensures
        r == (a@ == b@),
{
    if a.len() != b.len() {
        return false;
    }
    let mut i: usize = 0;
    while i < a.len()
        invariant
            a@.len() == b@.len(),
            i <= a@.len(),
            forall|j: int| 0 <= j < i ==> a@[j] == b@[j],
        decreases a@.len() - i,
    {
        if a[i] != b[i] {
            return false;
        }
        i = i + 1;
    }
    assert(a@ =~= b@);
    true
}

/// Finds the position of `key` in `items`, if it occurs there.
pub fn position_of(items: &Vec<Vec<u8>>, key: &Vec<u8>) -> (r: Option<usize>)
    ensures
        match r {
            Some(i) => i < items@.len() && key_seq(items@)[i as int] == key@,
            None => !key_seq(items@).contains(key@),
        },
{
    let mut i: usize = 0;
    while i < items.len()
        invariant
            i <= items@.len(),
            forall|j: int| 0 <= j < i ==> key_seq(items@)[j] != key@,
        decreases items@.len() - i,
    {
        if bytes_eq(&items[i], key) {
            return Some(i);
        }
        i = i + 1;
    }
    None
}

/// The bytes written for one byte of an escaped string: a zero byte is
/// doubled, any other byte stands for itself.
pub open spec fn escape_piece(b: u8) -> Seq<u8> {
    if b == 0 {
        seq![0u8, 0u8]
    } else {
        seq![b]
    }
}

/// `s` with every zero byte doubled, so that a following marker `0, 1`
/// tells where it ends.
pub open spec fn escaped(s: Seq<u8>) -> Seq<u8>
    decreases s.len(),
{
    if s.len() == 0 {
        Seq::empty()
    } else {
        escaped(s.drop_last()) + escape_piece(s.last())
    }
}

/// The key of a pair of byte strings: the first escaped, the marker `0, 1`,
/// then the second as it is.
pub open spec fn pair_key(first: Seq<u8>, second: Seq<u8>) -> Seq<u8> {
    escaped(first) + seq![0u8, 1u8] + second
}

/// Builds the key of the pair `(first, second)`.
pub fn make_pair_key(first: &Vec<u8>, second: &Vec<u8>) -> (r: Vec<u8>)
    ensures
        r@ == pair_key(first@, second@),
{
    let mut r: Vec<u8> = Vec::new();
    let mut i: usize = 0;
    while i < first.len()
        invariant
            i <= first@.len(),
            r@ == escaped(first@.take(i as int)),
        decreases first@.len() - i,
    {
        let b = first[i];
        let ghost prev = r@;
        r.push(b);
        if b == 0 {
            r.push(0u8);
        }
        assert(first@.take(i + 1).drop_last() =~= first@.take(i as int));
        i = i + 1;
        assert(r@ =~= prev + escape_piece(b));
    }
    assert(first@.take(i as int) =~= first@);
    let ghost esc = r@;
    r.push(0u8);
    r.push(1u8);
    let mut j: usize = 0;
    while j < second.len()
        invariant
            j <= second@.len(),
            r@ == esc + seq![0u8, 1u8] + second@.take(j as int),
        decreases second@.len() - j,
    {
        r.push(second[j]);
        j = j + 1;
        assert(r@ =~= esc + seq![0u8, 1u8] + second@.take(j as int));
    }
    assert(second@.take(j as int) =~= second@);
    r
}

} // verus!
