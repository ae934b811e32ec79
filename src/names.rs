use vstd::prelude::*;

verus! {

/// The fixed table of sample identifiers and their display names.
pub open spec fn fallback_name(id: Seq<char>) -> Option<Seq<char>> {
    if id == "user-1"@ {
        Some("髙橋慶祐"@)
    } else if id == "user-2"@ {
        Some("佐藤太郎"@)
    } else if id == "user-3"@ {
        Some("鈴木花子"@)
    } else if id == "user-4"@ {
        Some("松本次郎"@)
    } else if id == "user-5"@ {
        Some("後藤優子"@)
    } else {
        None
    }
}

/// The display name for an identifier: its entry in the fallback table, or
/// the identifier itself when the table has none.
pub open spec fn display_name(id: Seq<char>) -> Seq<char> {
    match fallback_name(id) {
        Some(name) => name,
        None => id,
    }
}

/// Looks `id` up in the fallback table; unknown identifiers are their own name.
pub fn get_user_name_by_id(id: &str) -> (r: String)
    ensures
        r@ == display_name(id@),
{
    let key = id.to_owned();
    if key == "user-1".to_owned() {
        "髙橋慶祐".to_owned()
    } else if key == "user-2".to_owned() {
        "佐藤太郎".to_owned()
    } else if key == "user-3".to_owned() {
        "鈴木花子".to_owned()
    } else if key == "user-4".to_owned() {
        "松本次郎".to_owned()
    } else if key == "user-5".to_owned() {
        "後藤優子".to_owned()
    } else {
        key
    }
}

} // verus!
