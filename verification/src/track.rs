//! Formatting of the currently-playing line the polling loop persists:
//! the track name, a dash, and the artists joined with commas.

use vstd::prelude::*;
use vstd::string::StringExecFns;

verus! {

/// The artists joined with `", "`.
pub open spec fn spec_joined_artists(artists: Seq<Seq<char>>) -> Seq<char>
    decreases artists.len(),
{
    if artists.len() == 0 {
        Seq::empty()
    } else if artists.len() == 1 {
        artists[0]
    } else {
        artists[0] + ", "@ + spec_joined_artists(artists.drop_first())
    }
}

/// Joining one more artist appends a separator first unless the list was
/// empty.
proof fn lemma_joined_snoc(artists: Seq<Seq<char>>, x: Seq<char>)
    ensures
        spec_joined_artists(artists.push(x)) == if artists.len() == 0 {
            x
        } else {
            spec_joined_artists(artists) + ", "@ + x
        },
    decreases artists.len(),
{
    if artists.len() == 0 {
        assert(artists.push(x).len() == 1);
        assert(artists.push(x)[0] == x);
    } else {
        assert(artists.push(x).drop_first() =~= artists.drop_first().push(x));
        lemma_joined_snoc(artists.drop_first(), x);
        if artists.len() == 1 {
            assert(spec_joined_artists(artists.push(x)) == artists[0] + ", "@ + x);
        } else {
            assert(spec_joined_artists(artists.push(x)) == artists[0] + ", "@ + (
            spec_joined_artists(artists.drop_first()) + ", "@ + x));
            assert(artists[0] + ", "@ + (spec_joined_artists(artists.drop_first()) + ", "@ + x)
                =~= (artists[0] + ", "@ + spec_joined_artists(artists.drop_first())) + ", "@ + x);
        }
    }
}

/// The persisted line: the track name, `" - "`, and the joined artists.
pub open spec fn spec_track_line(name: Seq<char>, artists: Seq<Seq<char>>) -> Seq<char> {
    name + " - "@ + spec_joined_artists(artists)
}

/// Renders one track as the line the polling loop writes out.
pub fn format_track(name: &str, artists: &Vec<String>) -> (r: String)
    ensures
        r@ == spec_track_line(name@, artists.deep_view()),
{
    let ghost av = artists.deep_view();
    let mut s = String::from_str(name);
    s.append(" - ");
    let mut i: usize = 0;
    while i < artists.len()
        invariant
            i <= artists.len(),
            av == artists.deep_view(),
            av.len() == artists.len(),
            s@ == name@ + " - "@ + spec_joined_artists(av.take(i as int)),
        decreases artists.len() - i,
    {
        proof {
            assert(av[i as int] == artists@[i as int]@);
            assert(av.take(i as int + 1) =~= av.take(i as int).push(av[i as int]));
            lemma_joined_snoc(av.take(i as int), av[i as int]);
        }
        if i > 0 {
            s.append(", ");
        }
        s.append(artists[i].as_str());
        proof {
            if i > 0 {
                assert(name@ + " - "@ + spec_joined_artists(av.take(i as int)) + ", "@
                    + av[i as int] =~= name@ + " - "@ + (spec_joined_artists(av.take(i as int))
                    + ", "@ + av[i as int]));
            }
        }
        i = i + 1;
    }
    proof {
        assert(av.take(av.len() as int) =~= av);
    }
    s
}

} // verus!
