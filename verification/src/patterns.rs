//! The patterns an oracle falls back on, and how alternatives are joined.

use vstd::prelude::*;

verus! {

/// The alternatives in `parts`, in order, with a `|` between neighbours.
pub open spec fn joined(parts: Seq<Seq<char>>) -> Seq<char>
    decreases parts.len(),
{
    if parts.len() == 0 {
        Seq::empty()
    } else if parts.len() == 1 {
        parts[0]
    } else {
        joined(parts.drop_last()) + seq!['|'] + parts.last()
    }
}

/// The text of each part.
pub open spec fn texts(parts: Seq<&'static str>) -> Seq<Seq<char>> {
    Seq::new(parts.len(), |i: int| parts[i]@)
}

/// What marks a capture as interesting where the caller names no pattern.
pub open spec fn default_interesting() -> Seq<char> {
    joined(seq!["AddressSanitizer"@, "Fatal"@, "DCHECK"@, "Check"@])
}

/// What overrides an interesting capture where the caller names no pattern.
pub open spec fn default_uninteresting() -> Seq<char> {
    joined(
        seq![
            "RangeError"@,
            "SyntaxError"@,
            "ReferenceError"@,
            "TypeError"@,
            "URIError"@,
            "EvalError"@,
            "InternalError"@,
        ],
    )
}

/// One pattern that matches wherever any of `parts` does.
pub fn alternation(parts: &Vec<&'static str>) -> (pattern: String)
    ensures
        pattern@ == joined(texts(parts@)),
{
    let mut pattern = String::new();
    let mut i: usize = 0;
    while i < parts.len()
        invariant
            i <= parts.len(),
            pattern@ == joined(texts(parts@).take(i as int)),
        decreases parts.len() - i,
    {
        let ghost before = pattern@;
        if i > 0 {
            pattern.append("|");
        }
        pattern.append(parts[i]);
        proof {
            reveal_strlit("|");
            let all = texts(parts@);
            let next = all.take(i + 1);
            assert(next.drop_last() =~= all.take(i as int));
            assert(next.last() == parts@[i as int]@);
            assert("|"@ =~= seq!['|']);
            if i == 0 {
                assert(before =~= Seq::<char>::empty());
                assert(pattern@ =~= next[0]);
            }
        }
        i += 1;
    }
    proof {
        assert(texts(parts@).take(parts.len() as int) =~= texts(parts@));
    }
    pattern
}

/// The default pattern for interesting output, on either stream.
pub fn default_interesting_pattern() -> (pattern: String)
    ensures
        pattern@ == default_interesting(),
{
    let parts: Vec<&'static str> = vec!["AddressSanitizer", "Fatal", "DCHECK", "Check"];
    proof {
        assert(texts(parts@) =~= seq!["AddressSanitizer"@, "Fatal"@, "DCHECK"@, "Check"@]);
    }
    alternation(&parts)
}

/// The default pattern for output that is not interesting after all.
pub fn default_uninteresting_pattern() -> (pattern: String)
    ensures
        pattern@ == default_uninteresting(),
{
    let parts: Vec<&'static str> = vec![
        "RangeError",
        "SyntaxError",
        "ReferenceError",
        "TypeError",
        "URIError",
        "EvalError",
        "InternalError",
    ];
    proof {
        assert(texts(parts@) =~= seq![
            "RangeError"@,
            "SyntaxError"@,
            "ReferenceError"@,
            "TypeError"@,
            "URIError"@,
            "EvalError"@,
            "InternalError"@,
        ]);
    }
    alternation(&parts)
}

} // verus!
