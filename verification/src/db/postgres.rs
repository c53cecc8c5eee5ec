//! Schema migrations: which files of the migrations directory are run, in
//! which order, and how the text of one is cut into statements.
use crate::text::{trim, trimmed};
use vstd::prelude::*;
use vstd::string::StringSliceAdditionalSpecFns;
use vstd::utf8::encode_utf8;

verus! {

/// Whether a file name has the extension `sql`: it ends in `.sql`, and
/// something stands before the dot.
pub open spec fn is_migration_name(name: Seq<char>) -> bool {
    let bytes = encode_utf8(name);
    bytes.len() > 4 && bytes.subrange(bytes.len() - 4, bytes.len() as int) == seq![
        46u8,
        115u8,
        113u8,
        108u8,
    ]
}

/// The texts of a list of strings.
pub open spec fn texts(names: Seq<String>) -> Seq<Seq<char>> {
    names.map_values(|name: String| name@)
}

/// The texts of a list of string slices.
pub open spec fn slice_texts(parts: Seq<&str>) -> Seq<Seq<char>> {
    parts.map_values(|part: &str| part@)
}

/// The names among `entries` that are migrations, in the order of `entries`.
pub open spec fn migration_names(entries: Seq<Seq<char>>) -> Seq<Seq<char>>
    decreases entries.len(),
{
    if entries.len() == 0 {
        Seq::empty()
    } else if is_migration_name(entries.last()) {
        migration_names(entries.drop_last()).push(entries.last())
    } else {
        migration_names(entries.drop_last())
    }
}

/// The order of strings: byte by byte, a prefix before what extends it.
pub open spec fn bytes_le(a: Seq<u8>, b: Seq<u8>) -> bool
    decreases a.len(),
{
    if a.len() == 0 {
        true
    } else if b.len() == 0 {
        false
    } else if a[0] != b[0] {
        a[0] < b[0]
    } else {
        bytes_le(a.drop_first(), b.drop_first())
    }
}

/// Whether every name stands before the names that follow it.
pub open spec fn in_order(names: Seq<Seq<char>>) -> bool {
    forall|i: int, j: int|
        0 <= i <= j < names.len() ==> bytes_le(encode_utf8(names[i]), encode_utf8(names[j]))
}

/// Calls the `sort` of a vector of strings. Trusted: afterwards the vector
/// holds the same strings as before, each as often, in the order of strings.
#[verifier::external_body]
fn sort_names(names: &mut Vec<String>)
    ensures
        texts(final(names)@).to_multiset() == texts(old(names)@).to_multiset(),
        in_order(texts(final(names)@)),
{
    names.sort();
}

/// The pieces of `text` between its semicolons: one more than it has
/// semicolons.
pub open spec fn pieces(text: Seq<char>) -> Seq<Seq<char>>
    decreases text.len(),
{
    if text.len() == 0 {
        seq![Seq::empty()]
    } else {
        let before = pieces(text.drop_last());
        if text.last() == ';' {
            before.push(Seq::empty())
        } else {
            before.drop_last().push(before.last().push(text.last()))
        }
    }
}

/// Calls `str::split` with a semicolon. Trusted: the result holds the
/// pieces between the semicolons, in order, the empty ones too.
#[verifier::external_body]
fn split_semicolons(text: &str) -> (parts: Vec<&str>)
    ensures
        slice_texts(parts@) == pieces(text@),
{
    text.split(';').collect()
}

/// The statements among `parts`: each part without the white space round
/// it, unless nothing is left of it.
pub open spec fn statements_of(parts: Seq<Seq<char>>) -> Seq<Seq<char>>
    decreases parts.len(),
{
    if parts.len() == 0 {
        Seq::empty()
    } else if trimmed(parts.last()).len() > 0 {
        statements_of(parts.drop_last()).push(trimmed(parts.last()))
    } else {
        statements_of(parts.drop_last())
    }
}

/// Whether a file of the migrations directory is a migration.
pub fn is_migration_file(name: &str) -> (b: bool)
    ensures
        b == is_migration_name(name@),
{
    let bytes = name.as_bytes();
    let n: usize = bytes.len();
    if n <= 4 {
        return false;
    }
    let b = bytes[n - 4] == 46u8 && bytes[n - 3] == 115u8 && bytes[n - 2] == 113u8 && bytes[n - 1]
        == 108u8;
    proof {
        let tail = bytes@.subrange(n - 4, n as int);
        let want = seq![46u8, 115u8, 113u8, 108u8];
        if b {
            assert(tail =~= want);
        } else {
            assert(tail[0] == bytes@[n - 4] && tail[1] == bytes@[n - 3] && tail[2] == bytes@[n - 2]
                && tail[3] == bytes@[n - 1]);
            assert(want[0] == 46u8 && want[1] == 115u8 && want[2] == 113u8 && want[3] == 108u8);
        }
    }
    b
}

/// The migrations to run, in the order in which they are run: the entries
/// of the directory that are migrations, in the order of strings.
pub fn migration_files(entries: &Vec<String>) -> (files: Vec<String>)
    ensures
        texts(files@).to_multiset() == migration_names(texts(entries@)).to_multiset(),
        in_order(texts(files@)),
{
    let mut files: Vec<String> = Vec::new();
    let mut i: usize = 0;
    assert(texts(entries@).subrange(0, 0) =~= Seq::<Seq<char>>::empty());
    assert(texts(files@) =~= Seq::<Seq<char>>::empty());
    while i < entries.len()
        invariant
            i <= entries.len(),
            texts(files@) == migration_names(texts(entries@).subrange(0, i as int)),
        decreases entries.len() - i,
    {
        let ghost before = texts(entries@).subrange(0, i as int);
        let ghost now = texts(entries@).subrange(0, i + 1);
        assert(now.drop_last() =~= before);
        assert(now.last() == entries@[i as int]@);
        if is_migration_file(entries[i].as_str()) {
            let ghost old_files = files@;
            let name = entries[i].clone();
            files.push(name);
            assert(texts(files@) =~= texts(old_files).push(name@));
        }
        i = i + 1;
    }
    assert(texts(entries@).subrange(0, i as int) =~= texts(entries@));
    sort_names(&mut files);
    files
}

/// The statements of one migration, in order: the text is cut at its
/// semicolons, and what is left of a piece without the white space round it
/// is a statement.
pub fn split_statements(sql: &str) -> (statements: Vec<String>)
    ensures
        texts(statements@) == statements_of(pieces(sql@)),
{
    let parts = split_semicolons(sql);
    let mut statements: Vec<String> = Vec::new();
    let mut i: usize = 0;
    assert(slice_texts(parts@).subrange(0, 0) =~= Seq::<Seq<char>>::empty());
    assert(texts(statements@) =~= Seq::<Seq<char>>::empty());
    while i < parts.len()
        invariant
            i <= parts.len(),
            texts(statements@) == statements_of(slice_texts(parts@).subrange(0, i as int)),
        decreases parts.len() - i,
    {
        let ghost before = slice_texts(parts@).subrange(0, i as int);
        let ghost now = slice_texts(parts@).subrange(0, i + 1);
        assert(now.drop_last() =~= before);
        assert(now.last() == parts@[i as int]@);
        let statement = trim(parts[i]);
        if !statement.is_empty() {
            let ghost old_statements = statements@;
            let owned = statement.to_owned();
            statements.push(owned);
            assert(texts(statements@) =~= texts(old_statements).push(owned@));
        }
        i = i + 1;
    }
    assert(slice_texts(parts@).subrange(0, i as int) =~= slice_texts(parts@));
    statements
}

} // verus!
