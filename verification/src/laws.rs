use vstd::prelude::*;

use crate::encode::{all_digits, dec_chars, is_digit, lemma_dec_chars_all_digits};
use crate::request::{Galleries, Gallery, Image, Images, Lists, Request, Search, Watched};
use crate::url_builder::{
    all_path_chars, lemma_all_path_chars_concat, lemma_empty_query_no_question_mark, origin_chars,
    path_char, path_wf,
};

verus! {

// The library's cross-function guarantees, each stated once and proved from
// the contracts alone: which descriptors always build successfully, and that
// a build without query parameters yields a URL with no query component at
// all: not even a bare `?`.

/// Decimal digits can always stand in a URL path.
proof fn lemma_digits_are_path_chars(s: Seq<char>)
    requires
        all_digits(s),
    ensures
        all_path_chars(s),
{
    assert forall|i: int| 0 <= i < s.len() implies path_char(s[i]) by {
        assert(is_digit(s[i]));
    }
}

proof fn lemma_json_suffix_path_chars()
    ensures
        all_path_chars(".json"@),
{
    reveal_strlit(".json");
    assert(".json"@ =~= seq!['.', 'j', 's', 'o', 'n']);
}

proof fn lemma_galleries_prefix_path_chars()
    ensures
        all_path_chars("galleries/"@),
{
    reveal_strlit("galleries/");
    assert("galleries/"@ =~= seq!['g', 'a', 'l', 'l', 'e', 'r', 'i', 'e', 's', '/']);
}

/// A search request always builds: its path is a fixed well-formed literal.
pub proof fn lemma_search_build_ok(r: Search<'_>)
    ensures
        r.spec_build() is Ok,
{
    reveal_strlit("search.json");
    assert("search.json"@ =~= seq!['s', 'e', 'a', 'r', 'c', 'h', '.', 'j', 's', 'o', 'n']);
    assert(path_wf("search.json"@));
}

/// An images request always builds.
pub proof fn lemma_images_build_ok(r: Images<'_>)
    ensures
        r.spec_build() is Ok,
{
    reveal_strlit("images.json");
    assert("images.json"@ =~= seq!['i', 'm', 'a', 'g', 'e', 's', '.', 'j', 's', 'o', 'n']);
    assert(path_wf("images.json"@));
}

/// A watched-images request always builds.
pub proof fn lemma_watched_build_ok(r: Watched<'_>)
    ensures
        r.spec_build() is Ok,
{
    reveal_strlit("images/watched.json");
    assert("images/watched.json"@ =~= seq![
        'i', 'm', 'a', 'g', 'e', 's', '/', 'w', 'a', 't', 'c', 'h', 'e', 'd', '.', 'j', 's', 'o',
        'n',
    ]);
    assert(path_wf("images/watched.json"@));
}

/// A lists request always builds.
pub proof fn lemma_lists_build_ok(r: Lists<'_>)
    ensures
        r.spec_build() is Ok,
{
    reveal_strlit("lists.json");
    assert("lists.json"@ =~= seq!['l', 'i', 's', 't', 's', '.', 'j', 's', 'o', 'n']);
    assert(path_wf("lists.json"@));
}

/// A single-image request always builds, and its URL has no query component:
/// no `?` appears anywhere in it.
pub proof fn lemma_image_build_no_query(r: Image)
    ensures
        r.spec_build() is Ok,
        r.spec_build()->Ok_0 == origin_chars() + seq!['/'] + r.spec_path(),
        !(r.spec_build()->Ok_0).contains('?'),
{
    lemma_dec_chars_all_digits(r.id as nat);
    lemma_digits_are_path_chars(dec_chars(r.id as nat));
    lemma_json_suffix_path_chars();
    lemma_all_path_chars_concat(dec_chars(r.id as nat), ".json"@);
    assert(path_wf(r.spec_path()));
    lemma_empty_query_no_question_mark(r.spec_path());
}

/// An images request with no optional parameters set builds a URL with no
/// query component at all.
pub proof fn lemma_images_default_no_query(r: Images<'_>)
    requires
        r.constraint is None,
        r.bound is None,
        r.order is None,
        r.page is None,
        !r.random,
    ensures
        r.spec_build() is Ok,
        r.spec_build()->Ok_0 == origin_chars() + seq!['/'] + "images.json"@,
        !(r.spec_build()->Ok_0).contains('?'),
{
    lemma_images_build_ok(r);
    assert(r.spec_pairs() =~= Seq::<(Seq<char>, Seq<char>)>::empty());
    lemma_empty_query_no_question_mark("images.json"@);
}

/// A lists request with no optional parameters set builds a URL with no
/// query component at all.
pub proof fn lemma_lists_default_no_query(r: Lists<'_>)
    requires
        r.page is None,
        r.last is None,
    ensures
        r.spec_build() is Ok,
        r.spec_build()->Ok_0 == origin_chars() + seq!['/'] + "lists.json"@,
        !(r.spec_build()->Ok_0).contains('?'),
{
    lemma_lists_build_ok(r);
    assert(r.spec_pairs() =~= Seq::<(Seq<char>, Seq<char>)>::empty());
    lemma_empty_query_no_question_mark("lists.json"@);
}

/// A gallery request builds exactly when every character of its username can
/// stand in a URL path; with the page offset unset, the URL then has no
/// query component at all.
pub proof fn lemma_gallery_default_no_query(r: Gallery<'_>)
    requires
        r.page is None,
        all_path_chars(r.username@),
    ensures
        r.spec_build() is Ok,
        r.spec_build()->Ok_0 == origin_chars() + seq!['/'] + r.spec_path(),
        !(r.spec_build()->Ok_0).contains('?'),
{
    lemma_gallery_build_ok_iff(r);
    assert(r.spec_pairs() =~= Seq::<(Seq<char>, Seq<char>)>::empty());
    lemma_empty_query_no_question_mark(r.spec_path());
}

/// A galleries request with no optional parameters set and a path-safe
/// username builds a URL with no query component at all.
pub proof fn lemma_galleries_default_no_query(r: Galleries<'_>)
    requires
        r.page is None,
        !r.include_images,
        all_path_chars(r.username@),
    ensures
        r.spec_build() is Ok,
        r.spec_build()->Ok_0 == origin_chars() + seq!['/'] + r.spec_path(),
        !(r.spec_build()->Ok_0).contains('?'),
{
    lemma_galleries_build_ok_iff(r);
    assert(r.spec_pairs() =~= Seq::<(Seq<char>, Seq<char>)>::empty());
    lemma_empty_query_no_question_mark(r.spec_path());
}

/// A gallery request builds successfully if and only if every character of
/// its username can stand in a URL path.
pub proof fn lemma_gallery_build_ok_iff(r: Gallery<'_>)
    ensures
        r.spec_build() is Ok <==> all_path_chars(r.username@),
{
    let u = r.username@;
    let path = r.spec_path();
    if all_path_chars(u) {
        lemma_galleries_prefix_path_chars();
        lemma_json_suffix_path_chars();
        lemma_dec_chars_all_digits(r.id as nat);
        lemma_digits_are_path_chars(dec_chars(r.id as nat));
        assert(all_path_chars(seq!['/']));
        lemma_all_path_chars_concat("galleries/"@, u);
        lemma_all_path_chars_concat("galleries/"@ + u, seq!['/']);
        lemma_all_path_chars_concat("galleries/"@ + u + seq!['/'], dec_chars(r.id as nat));
        lemma_all_path_chars_concat(
            "galleries/"@ + u + seq!['/'] + dec_chars(r.id as nat),
            ".json"@,
        );
        assert(path_wf(path));
    }
    if r.spec_build() is Ok {
        assert(path_wf(path));
        assert forall|i: int| 0 <= i < u.len() implies path_char(u[i]) by {
            reveal_strlit("galleries/");
            let k = "galleries/"@.len() + i;
            assert(path[k] == u[i]);
        }
    }
}

/// A galleries request builds successfully if and only if every character of
/// its username can stand in a URL path.
pub proof fn lemma_galleries_build_ok_iff(r: Galleries<'_>)
    ensures
        r.spec_build() is Ok <==> all_path_chars(r.username@),
{
    let u = r.username@;
    let path = r.spec_path();
    if all_path_chars(u) {
        reveal_strlit("galleries/");
        lemma_galleries_prefix_path_chars();
        lemma_json_suffix_path_chars();
        lemma_all_path_chars_concat("galleries/"@, u);
        lemma_all_path_chars_concat("galleries/"@ + u, ".json"@);
        assert(path.len() > 0);
        assert(path_wf(path));
    }
    if r.spec_build() is Ok {
        assert(path_wf(path));
        assert forall|i: int| 0 <= i < u.len() implies path_char(u[i]) by {
            reveal_strlit("galleries/");
            let k = "galleries/"@.len() + i;
            assert(path[k] == u[i]);
        }
    }
}

} // verus!
