use vstd::prelude::*;

verus! {

/// An error report: the error's own message and a blank line, then one
/// "Caused by:" entry for each cause, outermost first.
pub open spec fn error_chain_text(message: Seq<char>, causes: Seq<Seq<char>>) -> Seq<char>
    decreases causes.len(),
{
    if causes.len() == 0 {
        message + "\n\n"@
    } else {
        error_chain_text(message, causes.drop_last()) + "Caused by:\n\t"@ + causes.last() + "\n"@
    }
}

/// Writes the report of an error and its chain of causes.
pub fn error_chain_fmt(message: &str, causes: &Vec<String>) -> (r: String)
    ensures
        r@ == error_chain_text(message@, causes@.map_values(|c: String| c@)),
{
    let mut out = String::from_str(message).concat("\n\n");
    let mut i: usize = 0;
    assert(causes@.subrange(0, 0).map_values(|c: String| c@) =~= Seq::<Seq<char>>::empty());
    while i < causes.len()
        invariant
            i <= causes@.len(),
            out@ == error_chain_text(message@, causes@.subrange(0, i as int).map_values(|c: String| c@)),
        decreases causes@.len() - i,
    {
        let ghost before = causes@.subrange(0, i as int).map_values(|c: String| c@);
        let ghost after = causes@.subrange(0, i + 1).map_values(|c: String| c@);
        assert(after.drop_last() =~= before);
        assert(after.last() == causes@[i as int]@);
        out.append("Caused by:\n\t");
        out.append(causes[i].as_str());
        out.append("\n");
        assert(out@ =~= error_chain_text(message@, after));
        i = i + 1;
    }
    assert(causes@.subrange(0, causes@.len() as int) =~= causes@);
    out
}

} // verus!
