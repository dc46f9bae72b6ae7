//! An issued authorization code with its subject and scopes, and the
//! comma-joined form in which the scopes are stored.
use vstd::prelude::*;

verus! {

pub const SCOPE_DELIMITER: char = ',';

/// The pieces of `s` between delimiters, from left to right; a string
/// without a delimiter is one piece, the empty string included.
pub open spec fn split_scopes(s: Seq<char>) -> Seq<Seq<char>>
    decreases s.len(),
{
    if s.len() == 0 {
        seq![Seq::<char>::empty()]
    } else if s.last() == SCOPE_DELIMITER {
        split_scopes(s.drop_last()).push(Seq::<char>::empty())
    } else {
        let pieces = split_scopes(s.drop_last());
        pieces.update(pieces.len() - 1, pieces.last().push(s.last()))
    }
}

/// The scopes written one after another with a delimiter between each two.
pub open spec fn join_scopes(scopes: Seq<Seq<char>>) -> Seq<char>
    decreases scopes.len(),
{
    if scopes.len() == 0 {
        Seq::<char>::empty()
    } else if scopes.len() == 1 {
        scopes[0]
    } else {
        join_scopes(scopes.drop_last()) + seq![SCOPE_DELIMITER] + scopes.last()
    }
}

/// Scopes that survive the comma-joined encoding: at least one, and none
/// holding the delimiter.
pub open spec fn valid_scopes(scopes: Seq<Seq<char>>) -> bool {
    &&& scopes.len() > 0
    &&& forall|i: int| 0 <= i < scopes.len() ==> !(#[trigger] scopes[i]).contains(SCOPE_DELIMITER)
}

pub open spec fn string_views(v: Seq<String>) -> Seq<Seq<char>> {
    v.map_values(|s: String| s@)
}

pub open spec fn str_views(v: Seq<&str>) -> Seq<Seq<char>> {
    v.map_values(|s: &str| s@)
}

/// Splitting `prefix` followed by delimiter-free `tail`: the pieces of
/// `prefix`, with `tail` added to the last one.
pub proof fn lemma_split_append_piece(prefix: Seq<char>, tail: Seq<char>)
    requires
        !tail.contains(SCOPE_DELIMITER),
    ensures
        split_scopes(prefix + tail) == split_scopes(prefix).update(
            split_scopes(prefix).len() - 1,
            split_scopes(prefix).last() + tail,
        ),
        split_scopes(prefix).len() > 0,
    decreases tail.len(),
{
    lemma_split_nonempty(prefix);
    let pieces = split_scopes(prefix);
    if tail.len() == 0 {
        assert(prefix + tail =~= prefix);
        assert(pieces.last() + tail =~= pieces.last());
        assert(pieces.update(pieces.len() - 1, pieces.last()) =~= pieces);
    } else {
        let shorter = tail.drop_last();
        assert forall|i: int| 0 <= i < shorter.len() implies shorter[i] != SCOPE_DELIMITER by {
            assert(shorter[i] == tail[i]);
        }
        assert(tail.last() == tail[tail.len() - 1]);
        lemma_split_append_piece(prefix, shorter);
        let whole = prefix + tail;
        assert(whole.drop_last() =~= prefix + shorter);
        assert(whole.last() == tail.last());
        let mid = split_scopes(prefix + shorter);
        assert(mid.len() == pieces.len());
        assert(mid.last() == pieces.last() + shorter);
        assert((pieces.last() + shorter).push(tail.last()) =~= pieces.last() + tail);
        assert(mid.update(mid.len() - 1, mid.last().push(whole.last())) =~= pieces.update(
            pieces.len() - 1,
            pieces.last() + tail,
        ));
    }
}

pub proof fn lemma_split_nonempty(s: Seq<char>)
    ensures
        split_scopes(s).len() > 0,
    decreases s.len(),
{
    if s.len() > 0 {
        lemma_split_nonempty(s.drop_last());
    }
}

/// Joining valid scopes and splitting the result gives back the same scopes,
/// in the same order.
pub proof fn lemma_split_join(scopes: Seq<Seq<char>>)
    requires
        valid_scopes(scopes),
    ensures
        split_scopes(join_scopes(scopes)) == scopes,
    decreases scopes.len(),
{
    let last = scopes.last();
    assert(!scopes[scopes.len() - 1].contains(SCOPE_DELIMITER));
    if scopes.len() == 1 {
        assert(split_scopes(Seq::<char>::empty() + last) == seq![Seq::<char>::empty()].update(
            0,
            Seq::<char>::empty() + last,
        )) by {
            lemma_split_append_piece(Seq::<char>::empty(), last);
        }
        assert(Seq::<char>::empty() + last =~= last);
        assert(seq![Seq::<char>::empty()].update(0, last) =~= scopes);
    } else {
        let rest = scopes.drop_last();
        assert forall|i: int| 0 <= i < rest.len() implies !(#[trigger] rest[i]).contains(
            SCOPE_DELIMITER,
        ) by {
            assert(rest[i] == scopes[i]);
        }
        lemma_split_join(rest);
        let head = join_scopes(rest) + seq![SCOPE_DELIMITER];
        assert(head.drop_last() =~= join_scopes(rest));
        assert(head.last() == SCOPE_DELIMITER);
        assert(split_scopes(head) == rest.push(Seq::<char>::empty()));
        lemma_split_append_piece(head, last);
        assert(Seq::<char>::empty() + last =~= last);
        assert(rest.push(Seq::<char>::empty()).update(rest.len() as int, last) =~= scopes);
    }
}

/// Joins the scopes with the delimiter, the form in which they are stored.
pub fn join_scope_list(scopes: &Vec<&str>) -> (r: String)
    ensures
        r@ == join_scopes(str_views(scopes@)),
{
    let mut joined = String::new();
    let mut i: usize = 0;
    while i < scopes.len()
        invariant
            i <= scopes@.len(),
            joined@ == join_scopes(str_views(scopes@).take(i as int)),
        decreases scopes@.len() - i,
    {
        let ghost views = str_views(scopes@);
        proof {
            assert(views.take(i + 1).drop_last() =~= views.take(i as int));
            assert(views.take(i + 1).last() == scopes@[i as int]@);
            if i == 0 {
                assert(views.take(0) =~= Seq::<Seq<char>>::empty());
            }
        }
        if i > 0 {
            joined.append(",");
            proof {
                reveal_strlit(",");
            }
        }
        joined.append(scopes[i]);
        proof {
            if i > 0 {
                assert(joined@ =~= join_scopes(views.take(i as int)) + seq![SCOPE_DELIMITER]
                    + scopes@[i as int]@);
            } else {
                assert(joined@ =~= scopes@[0]@);
            }
        }
        i = i + 1;
    }
    proof {
        assert(str_views(scopes@).take(scopes@.len() as int) =~= str_views(scopes@));
    }
    joined
}

/// Whether `s` holds the delimiter.
pub fn contains_delimiter(s: &str) -> (r: bool)
    ensures
        r == s@.contains(SCOPE_DELIMITER),
{
    let n = s.unicode_len();
    let mut i: usize = 0;
    while i < n
        invariant
            n == s@.len(),
            i <= n,
            forall|j: int| 0 <= j < i ==> s@[j] != SCOPE_DELIMITER,
        decreases n - i,
    {
        if s.get_char(i) == SCOPE_DELIMITER {
            return true;
        }
        i = i + 1;
    }
    false
}

/// Whether the scopes survive the stored encoding (see `valid_scopes`).
pub fn scopes_are_valid(scopes: &Vec<&str>) -> (r: bool)
    ensures
        r == valid_scopes(str_views(scopes@)),
{
    if scopes.len() == 0 {
        return false;
    }
    let mut i: usize = 0;
    while i < scopes.len()
        invariant
            i <= scopes@.len(),
            forall|j: int| 0 <= j < i ==> !(#[trigger] str_views(scopes@)[j]).contains(
                SCOPE_DELIMITER,
            ),
        decreases scopes@.len() - i,
    {
        if contains_delimiter(scopes[i]) {
            assert(str_views(scopes@)[i as int] == scopes@[i as int]@);
            return false;
        }
        i = i + 1;
    }
    true
}

/// An authorization code with the subject and scopes it was issued for.
#[derive(Debug)]
pub struct AuthorizationCodeEntry {
    pub auth_code: String,
    pub subject: String,
    pub scopes: Vec<String>,
}

impl AuthorizationCodeEntry {
    /// The entry for a stored row, whose scopes are held comma-joined.
    pub fn new(auth_code: String, subject: String, scopes: String) -> (r: Self)
        ensures
            r.auth_code@ == auth_code@,
            r.subject@ == subject@,
            string_views(r.scopes@) == split_scopes(scopes@),
    {
        let scopes = split_scope_string(scopes.as_str());
        AuthorizationCodeEntry { auth_code, subject, scopes }
    }

    /// The scopes as a set: their order is not kept by the encoding.
    pub open spec fn scope_set(&self) -> Set<Seq<char>> {
        string_views(self.scopes@).to_set()
    }
}

/// Splits a stored scope string at each delimiter.
pub fn split_scope_string(s: &str) -> (r: Vec<String>)
    ensures
        string_views(r@) == split_scopes(s@),
{
    let n = s.unicode_len();
    let mut pieces: Vec<String> = Vec::new();
    let mut start: usize = 0;
    let mut i: usize = 0;
    proof {
        assert(string_views(pieces@) =~= Seq::<Seq<char>>::empty());
        assert(s@.subrange(0, 0) =~= Seq::<char>::empty());
        assert(string_views(pieces@).push(s@.subrange(0, 0)) =~= seq![Seq::<char>::empty()]);
    }
    while i < n
        invariant
            n == s@.len(),
            start <= i <= n,
            string_views(pieces@).push(s@.subrange(start as int, i as int)) == split_scopes(
                s@.subrange(0, i as int),
            ),
        decreases n - i,
    {
        let c = s.get_char(i);
        let ghost before = s@.subrange(0, i as int);
        let ghost after = s@.subrange(0, i + 1);
        proof {
            assert(after.drop_last() =~= before);
            assert(after.last() == c);
        }
        if c == SCOPE_DELIMITER {
            let ghost old_views = string_views(pieces@);
            let piece = String::from_str(s.substring_char(start, i));
            pieces.push(piece);
            proof {
                assert(string_views(pieces@) =~= old_views.push(
                    s@.subrange(start as int, i as int),
                ));
                assert(s@.subrange((i + 1) as int, (i + 1) as int) =~= Seq::<char>::empty());
            }
            start = i + 1;
        } else {
            proof {
                let last = s@.subrange(start as int, i as int);
                assert(last.push(c) =~= s@.subrange(start as int, i + 1));
                let full = string_views(pieces@).push(last);
                assert(full.update(full.len() - 1, last.push(c)) =~= string_views(pieces@).push(
                    s@.subrange(start as int, i + 1),
                ));
            }
        }
        i = i + 1;
    }
    let ghost old_views = string_views(pieces@);
    let piece = String::from_str(s.substring_char(start, n));
    pieces.push(piece);
    proof {
        assert(s@.subrange(0, n as int) =~= s@);
        assert(string_views(pieces@) =~= old_views.push(
            s@.subrange(start as int, n as int),
        ));
    }
    pieces
}

} // verus!
