//! Rules the presentation side applies to what the bridge delivers.
use vstd::prelude::*;
use vstd::string::StrSliceExecFns;

use crate::message::{ItemStatus, LibraryItem, UtopiaMessage};

verus! {

/// Whether the presentation side keeps listening after handling `m`: every
/// notification but `Disconnect` keeps it listening.
pub fn dispatch_continues(m: &UtopiaMessage) -> (r: bool)
    ensures
        r == !m.is_disconnect(),
{
    match m {
        UtopiaMessage::Disconnect => false,
        _ => true,
    }
}

/// The label shown for a status.
pub open spec fn label_of(s: ItemStatus) -> Seq<char> {
    match s {
        ItemStatus::Running(_) => "Running"@,
        ItemStatus::Closing => "Closing"@,
        ItemStatus::Updatable => "Update available"@,
        ItemStatus::Updating => "Updating"@,
        ItemStatus::Installed => "Installed"@,
    }
}

pub fn status_label(s: ItemStatus) -> (r: &'static str)
    ensures
        r@ == label_of(s),
{
    match s {
        ItemStatus::Running(_) => "Running",
        ItemStatus::Closing => "Closing",
        ItemStatus::Updatable => "Update available",
        ItemStatus::Updating => "Updating",
        ItemStatus::Installed => "Installed",
    }
}

/// The label a card shows for the states its active provider reports: that
/// of the last one, none if there is none.
pub fn status_text(stati: &Vec<ItemStatus>) -> (r: Option<&'static str>)
    ensures
        stati@.len() == 0 ==> r is None,
        stati@.len() > 0 ==> (r matches Some(l) && l@ == label_of(stati@.last())),
{
    let n = stati.len();
    if n == 0 {
        None
    } else {
        Some(status_label(stati[n - 1]))
    }
}

/// The code of a character after ASCII upper-casing.
pub open spec fn upper_code(c: char) -> u32 {
    if 97 <= (c as u32) && (c as u32) <= 122 {
        (c as u32 - 32) as u32
    } else {
        c as u32
    }
}

fn upper_code_of(c: char) -> (r: u32)
    ensures
        r == upper_code(c),
{
    let v = c as u32;
    if 97 <= v && v <= 122 {
        v - 32
    } else {
        v
    }
}

/// How the library grid orders two cards by name, from position `k` on:
/// the first position where the ASCII-upper-cased characters differ decides
/// (-1: `b` first, 1: `n` first); `b` goes after `n` where `n` runs out
/// first, and before it where `b` runs out.
pub open spec fn order_from(b: Seq<char>, n: Seq<char>, k: int) -> int
    decreases b.len() - k,
{
    if k >= b.len() || k < 0 {
        -1
    } else if k >= n.len() {
        1
    } else if upper_code(b[k]) < upper_code(n[k]) {
        -1
    } else if upper_code(b[k]) > upper_code(n[k]) {
        1
    } else {
        order_from(b, n, k + 1)
    }
}

/// Compares the names of two cards for the library grid.
pub fn card_order(b: &str, n: &str) -> (r: i32)
    ensures
        r as int == order_from(b@, n@, 0),
{
    let bl = b.unicode_len();
    let nl = n.unicode_len();
    let mut k: usize = 0;
    while k < bl
        invariant
            bl == b@.len(),
            nl == n@.len(),
            0 <= k <= bl,
            order_from(b@, n@, 0) == order_from(b@, n@, k as int),
        decreases bl - k,
    {
        if k >= nl {
            return 1;
        }
        let bc = upper_code_of(b.get_char(k));
        let nc = upper_code_of(n.get_char(k));
        if bc < nc {
            return -1;
        }
        if bc > nc {
            return 1;
        }
        k = k + 1;
    }
    -1
}

/// `needle` occurs in `hay`.
pub open spec fn contains_seq(hay: Seq<char>, needle: Seq<char>) -> bool {
    exists|i: int| 0 <= i <= hay.len() - needle.len() && #[trigger] hay.subrange(i, i + needle.len()) == needle
}

/// Whether `needle` occurs in `hay`.
pub fn contains_chars(hay: &str, needle: &str) -> (r: bool)
    ensures
        r == contains_seq(hay@, needle@),
{
    let hl = hay.unicode_len();
    let nl = needle.unicode_len();
    if nl > hl {
        return false;
    }
    let mut i: usize = 0;
    while i <= hl - nl
        invariant
            hl == hay@.len(),
            nl == needle@.len(),
            nl <= hl,
            0 <= i <= hl - nl + 1,
            forall|p: int| 0 <= p < i ==> #[trigger] hay@.subrange(p, p + nl) != needle@,
        decreases hl - nl + 1 - i,
    {
        let mut j: usize = 0;
        let mut same = true;
        while j < nl
            invariant
                hl == hay@.len(),
                nl == needle@.len(),
                i + nl <= hl,
                0 <= j <= nl,
                same == forall|q: int| 0 <= q < j ==> hay@[i + q] == needle@[q],
            decreases nl - j,
        {
            if same && hay.get_char(i + j) != needle.get_char(j) {
                same = false;
            }
            j = j + 1;
        }
        if same {
            assert(hay@.subrange(i as int, i + nl) =~= needle@);
            return true;
        }
        proof {
            let q = choose|q: int| 0 <= q < nl && hay@[i + q] != needle@[q];
            assert(hay@.subrange(i as int, i + nl)[q] != needle@[q]);
        }
        i = i + 1;
    }
    false
}

/// What `str::to_uppercase` makes of a string.
pub uninterp spec fn upper_of(s: Seq<char>) -> Seq<char>;

/// Relies on `str::to_uppercase`: the upper-cased string, which depends on
/// the characters alone.
#[verifier::external_body]
fn uppercase(s: &str) -> (r: String)
    ensures
        r@ == upper_of(s@),
{
    s.to_uppercase()
}

/// The item has a provider with this identifier.
pub open spec fn has_provider_spec(item: LibraryItem, provider: Seq<char>) -> bool {
    exists|i: int| 0 <= i < item.providers@.len() && #[trigger] item.providers@[i].0@ == provider
}

/// Whether the item can be served by the provider with this identifier.
pub fn has_provider(item: &LibraryItem, provider: &String) -> (r: bool)
    ensures
        r == has_provider_spec(*item, provider@),
{
    let n = item.providers.len();
    let mut i: usize = 0;
    while i < n
        invariant
            n == item.providers@.len(),
            0 <= i <= n,
            forall|j: int| 0 <= j < i ==> #[trigger] item.providers@[j].0@ != provider@,
        decreases n - i,
    {
        if item.providers[i].0 == *provider {
            return true;
        }
        i = i + 1;
    }
    false
}

/// A card is shown when the selected provider, if any, can serve its item,
/// and the search text, if not empty, occurs in its upper-cased name.
pub open spec fn visible_spec(
    item: LibraryItem,
    module: Option<String>,
    search: Seq<char>,
    name_upper: Seq<char>,
    search_upper: Seq<char>,
) -> bool {
    &&& module matches Some(m) ==> has_provider_spec(item, m@)
    &&& search.len() > 0 ==> contains_seq(name_upper, search_upper)
}

/// Whether a card is shown, given the upper-cased name and search text.
pub fn visible_with(
    item: &LibraryItem,
    module: &Option<String>,
    search: &String,
    name_upper: &String,
    search_upper: &String,
) -> (r: bool)
    ensures
        r == visible_spec(*item, *module, search@, name_upper@, search_upper@),
{
    if let Some(m) = module {
        if !has_provider(item, m) {
            return false;
        }
    }
    if search.as_str().unicode_len() > 0 {
        return contains_chars(name_upper.as_str(), search_upper.as_str());
    }
    true
}

/// Whether the library grid shows the card of `item` under the selected
/// provider and the search text.
pub fn card_visible(item: &LibraryItem, module: &Option<String>, search: &String) -> (r: bool)
    ensures
        r == visible_spec(*item, *module, search@, upper_of(item.name@), upper_of(search@)),
{
    let name_upper = uppercase(item.name.as_str());
    let search_upper = uppercase(search.as_str());
    visible_with(item, module, search, &name_upper, &search_upper)
}

/// Takes a new state of an item into the details kept for it; the item keeps
/// its identifier.
pub fn apply_update(details: &mut LibraryItem, update: LibraryItem)
    ensures
        final(details).uuid == old(details).uuid,
        final(details).name == update.name,
        final(details).kind == update.kind,
        final(details).active_provider == update.active_provider,
        final(details).providers == update.providers,
{
    details.name = update.name;
    details.kind = update.kind;
    details.active_provider = update.active_provider;
    details.providers = update.providers;
}

} // verus!
