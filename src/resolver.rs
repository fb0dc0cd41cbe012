use vstd::prelude::*;
use vstd::string::StrSliceExecFns;

verus! {

/// The index of the last `/` in a text, or -1 where there is none.
pub open spec fn last_slash(s: Seq<char>) -> int
    decreases s.len(),
{
    if s.len() == 0 {
        -1
    } else if s.last() == '/' {
        s.len() - 1
    } else {
        last_slash(s.drop_last())
    }
}

/// The name given to a job whose URL path ends in no name.
pub open spec fn placeholder_name() -> Seq<char> {
    "document"@
}

/// The file name that a URL's path ends in: what follows its last `/`, or the
/// placeholder where nothing does.
pub open spec fn url_file_name_spec(url: Seq<char>) -> Seq<char> {
    let tail = url.subrange(last_slash(url) + 1, url.len() as int);
    if tail.len() == 0 {
        placeholder_name()
    } else {
        tail
    }
}

proof fn lemma_last_slash_bounds(s: Seq<char>)
    ensures
        -1 <= last_slash(s) < s.len(),
    decreases s.len(),
{
    if s.len() > 0 {
        lemma_last_slash_bounds(s.drop_last());
    }
}

/// Derives a job's file name from the path of the URL its content comes from.
pub fn url_file_name(url: &str) -> (r: String)
    ensures
        r@ == url_file_name_spec(url@),
{
    let n = url.unicode_len();
    let mut i: usize = n;
    proof {
        assert(url@.subrange(0, n as int) =~= url@);
    }
    while i > 0 && url.get_char(i - 1) != '/'
        invariant
            n == url@.len(),
            i <= n,
            last_slash(url@) == last_slash(url@.subrange(0, i as int)),
            forall|k: int| i <= k < n ==> url@[k] != '/',
        decreases i,
    {
        proof {
            assert(url@.subrange(0, i as int).drop_last() =~= url@.subrange(0, i as int - 1));
        }
        i = i - 1;
    }
    proof {
        assert(url@.subrange(0, n as int) =~= url@);
        if i > 0 {
            assert(url@.subrange(0, i as int).last() == '/');
        } else {
            assert(url@.subrange(0, 0) =~= Seq::<char>::empty());
        }
        lemma_last_slash_bounds(url@);
    }
    if i == n {
        String::from_str("document")
    } else {
        String::from_str(url.substring_char(i, n))
    }
}

} // verus!
