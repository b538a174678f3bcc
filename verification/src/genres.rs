//! The fixed, ordered taxonomy of genre labels that spans the feature space.

use crate::text::{ascii_lowercase, eq_ignore_ascii_case, matches_ignoring_case};
use vstd::prelude::*;

verus! {

/// Number of labels in the taxonomy, and so the length of every feature
/// vector.
pub const DIMENSIONS: usize = 19;

/// The label at position `i` of the taxonomy.
pub open spec fn genre_label(i: int) -> Seq<char> {
    if i == 0 {
        "Action"@
    } else if i == 1 {
        "Adventure"@
    } else if i == 2 {
        "Anime"@
    } else if i == 3 {
        "Comedy"@
    } else if i == 4 {
        "Crime"@
    } else if i == 5 {
        "Drama"@
    } else if i == 6 {
        "Espionage"@
    } else if i == 7 {
        "Family"@
    } else if i == 8 {
        "Fantasy"@
    } else if i == 9 {
        "History"@
    } else if i == 10 {
        "Horror"@
    } else if i == 11 {
        "Music"@
    } else if i == 12 {
        "Mystery"@
    } else if i == 13 {
        "Romance"@
    } else if i == 14 {
        "Science-Fiction"@
    } else if i == 15 {
        "Supernatural"@
    } else if i == 16 {
        "Thriller"@
    } else if i == 17 {
        "War"@
    } else {
        "Western"@
    }
}

/// Length and first letter of the label at position `i`, the letter in
/// lower case.
spec fn label_shape(i: int) -> (nat, char) {
    if i == 0 {
        (6, 'a')
    } else if i == 1 {
        (9, 'a')
    } else if i == 2 {
        (5, 'a')
    } else if i == 3 {
        (6, 'c')
    } else if i == 4 {
        (5, 'c')
    } else if i == 5 {
        (5, 'd')
    } else if i == 6 {
        (9, 'e')
    } else if i == 7 {
        (6, 'f')
    } else if i == 8 {
        (7, 'f')
    } else if i == 9 {
        (7, 'h')
    } else if i == 10 {
        (6, 'h')
    } else if i == 11 {
        (5, 'm')
    } else if i == 12 {
        (7, 'm')
    } else if i == 13 {
        (7, 'r')
    } else if i == 14 {
        (15, 's')
    } else if i == 15 {
        (12, 's')
    } else if i == 16 {
        (8, 't')
    } else if i == 17 {
        (3, 'w')
    } else {
        (7, 'w')
    }
}

/// Every label has the length and the first letter that `label_shape`
/// gives.
proof fn lemma_label_shape(i: int)
    requires
        0 <= i < DIMENSIONS,
    ensures
        ascii_lowercase(genre_label(i)).len() == label_shape(i).0,
        ascii_lowercase(genre_label(i))[0] == label_shape(i).1,
{
    reveal_strlit("Action");
    reveal_strlit("Adventure");
    reveal_strlit("Anime");
    reveal_strlit("Comedy");
    reveal_strlit("Crime");
    reveal_strlit("Drama");
    reveal_strlit("Espionage");
    reveal_strlit("Family");
    reveal_strlit("Fantasy");
    reveal_strlit("History");
    reveal_strlit("Horror");
    reveal_strlit("Music");
    reveal_strlit("Mystery");
    reveal_strlit("Romance");
    reveal_strlit("Science-Fiction");
    reveal_strlit("Supernatural");
    reveal_strlit("Thriller");
    reveal_strlit("War");
    reveal_strlit("Western");
}

/// No two labels of the taxonomy are equal, not even up to ASCII case: a
/// name matches at most one position.
pub proof fn lemma_labels_distinct(i: int, j: int)
    requires
        0 <= i < DIMENSIONS,
        0 <= j < DIMENSIONS,
        i != j,
    ensures
        !matches_ignoring_case(genre_label(i), genre_label(j)),
{
    lemma_label_shape(i);
    lemma_label_shape(j);
}

/// A name that matches the label at one position matches no other.
pub proof fn lemma_match_is_unique(name: Seq<char>, i: int, j: int)
    requires
        0 <= i < DIMENSIONS,
        0 <= j < DIMENSIONS,
        matches_ignoring_case(name, genre_label(i)),
        matches_ignoring_case(name, genre_label(j)),
    ensures
        i == j,
{
    if i != j {
        lemma_labels_distinct(i, j);
    }
}

/// The label at position `i`, or `None` when `i` is outside the taxonomy.
pub fn label(i: usize) -> (name: Option<&'static str>)
    ensures
        match name {
            Some(s) => i < DIMENSIONS && s@ == genre_label(i as int),
            None => i >= DIMENSIONS,
        },
{
    match i {
        0 => Some("Action"),
        1 => Some("Adventure"),
        2 => Some("Anime"),
        3 => Some("Comedy"),
        4 => Some("Crime"),
        5 => Some("Drama"),
        6 => Some("Espionage"),
        7 => Some("Family"),
        8 => Some("Fantasy"),
        9 => Some("History"),
        10 => Some("Horror"),
        11 => Some("Music"),
        12 => Some("Mystery"),
        13 => Some("Romance"),
        14 => Some("Science-Fiction"),
        15 => Some("Supernatural"),
        16 => Some("Thriller"),
        17 => Some("War"),
        18 => Some("Western"),
        _ => None,
    }
}

/// Whether `name` is the label at position `i`, up to ASCII case.
pub fn is_label(name: &str, i: usize) -> (same: bool)
    ensures
        same == (i < DIMENSIONS && matches_ignoring_case(name@, genre_label(i as int))),
{
    match label(i) {
        Some(l) => eq_ignore_ascii_case(name, l),
        None => false,
    }
}

/// Looks a label up by name, ignoring ASCII case. An unknown name is not an
/// error: it simply has no position.
pub fn index_of(name: &str) -> (found: Option<usize>)
    ensures
        match found {
            Some(i) => {
                &&& i < DIMENSIONS
                &&& matches_ignoring_case(name@, genre_label(i as int))
                &&& forall|j: int| 0 <= j < i ==> !matches_ignoring_case(name@, genre_label(j))
            },
            None => forall|j: int|
                0 <= j < DIMENSIONS ==> !matches_ignoring_case(name@, genre_label(j)),
        },
{
    let mut i: usize = 0;
    while i < DIMENSIONS
        invariant
            i <= DIMENSIONS,
            forall|j: int| 0 <= j < i ==> !matches_ignoring_case(name@, genre_label(j)),
        decreases DIMENSIONS - i,
    {
        if is_label(name, i) {
            return Some(i);
        }
        i += 1;
    }
    None
}

} // verus!
