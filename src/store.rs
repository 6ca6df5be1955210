use vstd::prelude::*;
use vstd::string::*;

verus! {

/// The collection of the record store that holds the identity records.
pub fn user_records_collection() -> (r: String)
    ensures
        r@ == "internal/user_records"@,
{
    String::from_str("internal/user_records")
}

/// The collection of the record store that holds a caller's records of the
/// given name: `custom/<name>`.
pub fn custom_collection(name: &str) -> (r: String)
    ensures
        r@ == "custom/"@ + name@,
{
    let mut c = String::from_str("custom/");
    c.append(name);
    c
}

/// A collection that a caller names is never one of the library's own:
/// whatever the name, it does not start with `internal/`.
pub proof fn lemma_custom_collections_are_separate(name: Seq<char>)
    ensures
        ("custom/"@ + name).len() < 9 || ("custom/"@ + name).subrange(0, 9) != "internal/"@,
        "custom/"@ + name != "internal/user_records"@,
{
    reveal_strlit("custom/");
    reveal_strlit("internal/");
    reveal_strlit("internal/user_records");
    let c = "custom/"@ + name;
    assert(c[0] == 'c');
    assert("internal/"@[0] == 'i');
    if c.len() >= 9 {
        assert(c.subrange(0, 9)[0] != "internal/"@[0]);
    }
    assert(c[0] != "internal/user_records"@[0]);
}

} // verus!
