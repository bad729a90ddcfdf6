use vstd::prelude::*;
use crate::clock::{earliest_instant, latest_instant, now_nanos};
use crate::ids::new_random_id;
use crate::roles::Role;
use crate::text::{
    all_ascii, all_space, ascii_upper, has_no_space, is_space, join_with, join_words,
    law_ascii_spaces, law_join_words_idempotent, lemma_join_upper, lemma_joined_words_ascii, lemma_words_concat,
    lemma_words_of_spaceless, lemma_words_shape, lemma_words_trailing_space, lemma_words_upper,
    lower_all, lowercase_of, to_lowercase, upper_all, words,
};

verus! {

/// The form in which a username is kept: its words joined with `_`, in
/// lowercase (`John Doe 42` becomes `john_doe_42`).
pub open spec fn username_form(raw: Seq<char>) -> Seq<char> {
    lowercase_of(join_with(words(raw), '_'))
}

/// The form in which an ASCII username is kept: its words joined with `_`,
/// with `A`-`Z` made `a`-`z`.
pub open spec fn ascii_username(raw: Seq<char>) -> Seq<char> {
    lower_all(join_with(words(raw), '_'))
}

/// Converts a username to the form in which it is kept: the words of the
/// text joined with `_`, then lowercased. For an ASCII name the lowercasing
/// maps `A`-`Z` to `a`-`z` and leaves the rest.
pub fn process_username(raw: &str) -> (r: String)
    ensures
        r@ == username_form(raw@),
        all_ascii(raw@) ==> r@ == ascii_username(raw@),
{
    let joined = join_words(raw);
    proof {
        if all_ascii(raw@) {
            lemma_joined_words_ascii(raw@);
        }
    }
    to_lowercase(joined.as_str())
}

/// The kept form of an ASCII username is ASCII, has no space and no
/// capital `A`-`Z`, and is its own kept form: processing a processed name
/// changes nothing.
pub proof fn law_username_idempotent(a: Seq<char>)
    requires
        all_ascii(a),
    ensures
        all_ascii(ascii_username(a)),
        has_no_space(ascii_username(a)),
        forall|i: int|
            0 <= i < ascii_username(a).len() ==> !(65 <= (#[trigger] ascii_username(a)[i] as u32)
                <= 90),
        ascii_username(ascii_username(a)) == ascii_username(a),
{
    let j = join_with(words(a), '_');
    lemma_joined_words_ascii(a);
    law_join_words_idempotent(a);
    let u = lower_all(j);
    assert forall|i: int| 0 <= i < u.len() implies (#[trigger] u[i] as u32) < 128 && !is_space(
        u[i],
    ) && !(65 <= (u[i] as u32) <= 90) by {
        assert((j[i] as u32) < 128);
        assert(!is_space(j[i]));
    }
    assert(has_no_space(u));
    lemma_words_of_spaceless(u);
    assert(join_with(words(u), '_') =~= u);
    assert(lower_all(u) =~= u);
}

/// A name made of visible ASCII characters only (letters, digits,
/// punctuation, no blank) is a single word: it is kept whole, only with
/// `A`-`Z` made `a`-`z`. So `john.doe` stays `john.doe` and `Jane-Doe`
/// becomes `jane-doe`.
pub proof fn law_username_single_word_kept_whole(a: Seq<char>)
    requires
        forall|i: int| 0 <= i < a.len() ==> 0x21 <= (#[trigger] a[i] as u32) <= 0x7E,
    ensures
        all_ascii(a),
        ascii_username(a) == lower_all(a),
{
    assert forall|i: int| 0 <= i < a.len() implies !is_space(#[trigger] a[i]) by {
        law_ascii_spaces(a[i]);
    }
    lemma_words_of_spaceless(a);
    if a.len() == 0 {
        assert(join_with(words(a), '_') =~= a);
    } else {
        assert(join_with(words(a), '_') == a);
    }
}

/// Case does not matter in an ASCII username: its uppercase form
/// (`to_ascii_uppercase`) is kept as the same name.
pub proof fn law_username_case_insensitive(a: Seq<char>)
    ensures
        ascii_username(upper_all(a)) == ascii_username(a),
{
    lemma_words_upper(a);
    lemma_join_upper(words(a));
    let j = join_with(words(a), '_');
    assert(lower_all(upper_all(j)) =~= lower_all(j));
}

/// Spaces around a username do not matter.
pub proof fn law_username_ignores_surrounding_space(pre: Seq<char>, a: Seq<char>, post: Seq<char>)
    requires
        all_space(pre),
        all_space(post),
    ensures
        ascii_username(pre + a + post) == ascii_username(a),
{
    lemma_words_trailing_space(pre + a, post);
    lemma_words_shape(pre);
    if pre.len() > 0 {
        lemma_words_concat(pre, a);
        assert(words(pre) + words(a) =~= words(a));
    } else {
        assert(pre + a =~= a);
    }
}

/// Any run of spaces between two parts of a username counts as one.
pub proof fn law_username_collapses_space_runs(
    a: Seq<char>,
    s1: Seq<char>,
    s2: Seq<char>,
    b: Seq<char>,
)
    requires
        all_space(s1),
        all_space(s2),
        s1.len() > 0,
        s2.len() > 0,
    ensures
        ascii_username(a + s1 + b) == ascii_username(a + s2 + b),
{
    lemma_words_concat(a + s1, b);
    lemma_words_concat(a + s2, b);
    lemma_words_trailing_space(a, s1);
    lemma_words_trailing_space(a, s2);
    assert((a + s1).last() == s1.last());
    assert((a + s2).last() == s2.last());
}

/// A user as the database holds it. Ids are the 128-bit value of a UUID,
/// instants are nanoseconds since the Unix epoch.
#[derive(Debug, Clone)]
pub struct DbUser {
    /// Unique user id
    pub id: u128,
    /// Email
    pub email: String,
    /// Password hash
    pub password: String,
    /// Username
    pub username: String,
    /// Avatar url
    pub avatar_url: Option<String>,
    /// Banner url
    pub banner_url: Option<String>,
    /// User role
    pub role: Role,
    /// Created at
    pub created: i128,
}

impl DbUser {
    /// A new regular user with a fresh random id, created now, with no avatar
    /// or banner; the username is kept in its processed form.
    pub fn new(email: &str, password_hash: &str, username: &str) -> (r: DbUser)
        ensures
            r.email@ == email@,
            r.password@ == password_hash@,
            r.username@ == username_form(username@),
            r.avatar_url is None,
            r.banner_url is None,
            r.role == Role::Regular,
            earliest_instant() <= r.created <= latest_instant(),
    {
        let username = process_username(username);
        DbUser {
            id: new_random_id(),
            email: email.to_owned(),
            password: password_hash.to_owned(),
            username,
            avatar_url: None,
            banner_url: None,
            role: Role::Regular,
            created: now_nanos(),
        }
    }
}

} // verus!
