//! Comparing paths, and keeping away from directories that must never be
//! deleted.
//!
//! Paths are texts: absolute, with links resolved.

use vstd::prelude::*;

use crate::model;
use crate::text;
use crate::text_laws;

verus! {

/// The names that the product's directory goes by are one.
pub open spec fn plain_component(component: Seq<char>) -> Seq<char> {
    if component == "qaq-harness"@ {
        "qaqh"@
    } else {
        component
    }
}

/// A lower-case path with every component in its plain form.
pub open spec fn plain_components(path: Seq<char>) -> Seq<char>
    decreases path.len(),
{
    match text::cut_at(path, "\\"@) {
        Some((head, rest)) => if rest.len() < path.len() {
            plain_component(head) + "\\"@ + plain_components(rest)
        } else {
            path
        },
        None => plain_component(path),
    }
}

/// A path without the prefix that lifts the limit on its length.
pub open spec fn without_extended_prefix(path: Seq<char>) -> Seq<char> {
    match text::behind_prefix(path, "\\\\?\\UNC\\"@) {
        Some(rest) => "\\\\"@ + rest,
        None => match text::behind_prefix(path, "\\\\?\\"@) {
            Some(rest) => rest,
            None => path,
        },
    }
}

/// The form in which Windows paths are compared: with backslashes, without the
/// prefix for long paths and without backslashes at its end, in lower case, the
/// product's directory under its plain name.
pub open spec fn path_key(path: Seq<char>) -> Seq<char> {
    plain_components(
        text::lowered(
            text::without_trailing(
                without_extended_prefix(text::with_char_replaced(path, '/', '\\')),
                '\\',
            ),
        ),
    )
}

/// `plain_components`, executable.
fn rename_components(path: &str) -> (r: String)
    ensures
        r@ == plain_components(path@),
    decreases path@.len(),
{
    match text::split_once(path, "\\") {
        Some((head, rest)) => {
            proof {
                reveal_strlit("\\");
                text::first_at_is_least(path@, "\\"@, 0);
            }
            let front = if text::same(head.as_str(), "qaq-harness") {
                "qaqh".to_owned()
            } else {
                head
            };
            let back = rename_components(rest.as_str());
            text::join3(front.as_str(), "\\", back.as_str())
        },
        None => if text::same(path, "qaq-harness") {
            "qaqh".to_owned()
        } else {
            path.to_owned()
        },
    }
}

/// `path_key`, executable.
pub fn windows_path_key(path: &str) -> (r: String)
    ensures
        r@ == path_key(path@),
{
    let value = text::replace_char(path, '/', '\\');
    let short = match text::strip_prefix(value.as_str(), "\\\\?\\UNC\\") {
        Some(rest) => text::join2("\\\\", rest.as_str()),
        None => match text::strip_prefix(value.as_str(), "\\\\?\\") {
            Some(rest) => rest,
            None => value,
        },
    };
    let cut = text::trim_end_char(short.as_str(), '\\');
    let lower = text::to_lower(cut.as_str());
    rename_components(lower.as_str())
}

/// Whether a piece of a path names something: an empty piece and a dot do not.
pub open spec fn is_name(piece: Seq<char>) -> bool {
    piece.len() > 0 && piece != "."@
}

/// The components of a path whose names are separated by `separator`: the
/// separator itself if the path begins at the root, a dot if the path begins with
/// one, and then the names.
pub open spec fn components(path: Seq<char>, separator: char) -> Seq<Seq<char>> {
    let pieces = text::fields(path, separator);
    let names = pieces.filter(|piece: Seq<char>| is_name(piece));
    if path.len() > 0 && path[0] == separator {
        seq![seq![separator]] + names
    } else if pieces[0] == "."@ {
        seq!["."@] + names
    } else {
        names
    }
}

/// `components`, executable.
fn components_of(path: &str, separator: char) -> (r: Vec<String>)
    ensures
        model::views(r@) == components(path@, separator),
{
    let ghost named = |piece: Seq<char>| is_name(piece);
    let pieces = text::split_char(path, separator);
    let ghost all = model::views(pieces@);
    let mut out: Vec<String> = Vec::new();
    let mut root = String::new();
    root.push(separator);
    assert(root@ =~= seq![separator]);
    assert(all.len() > 0 && all[0] == pieces@[0]@);
    let rooted = text::starts_with(path, root.as_str());
    assert(rooted == (path@.len() > 0 && path@[0] == separator)) by {
        if path@.len() > 0 {
            assert(path@.subrange(0, 1)[0] == path@[0]);
            assert(path@[0] == separator ==> path@.subrange(0, 1) =~= seq![separator]);
        }
    }
    if rooted {
        out.push(root);
    } else if text::same(pieces[0].as_str(), ".") {
        out.push(".".to_owned());
    }
    let ghost front = model::views(out@);
    let mut i: usize = 0;
    assert(all.take(0).filter(named) =~= Seq::empty()) by {
        reveal(Seq::filter);
    }
    assert(front + Seq::<Seq<char>>::empty() =~= front);
    while i < pieces.len()
        invariant
            i <= pieces@.len(),
            all == model::views(pieces@),
            named == (|piece: Seq<char>| is_name(piece)),
            model::views(out@) == front + all.take(i as int).filter(named),
        decreases pieces@.len() - i,
    {
        let ghost before = model::views(out@);
        let piece = pieces[i].as_str();
        proof {
            assert(all.take(i + 1).drop_last() =~= all.take(i as int));
            assert(all.take(i + 1).last() == piece@);
            reveal(Seq::filter);
        }
        if text::count(piece) > 0 && !text::same(piece, ".") {
            out.push(piece.to_owned());
            assert(model::views(out@) =~= before.push(piece@));
        }
        i = i + 1;
    }
    assert(all.take(all.len() as int) =~= all);
    out
}

/// Whether the components `all` begin with the components `start`.
fn begins_with(all: &Vec<String>, start: &Vec<String>) -> (r: bool)
    ensures
        r == model::views(start@).is_prefix_of(model::views(all@)),
{
    let ghost a = model::views(all@);
    let ghost b = model::views(start@);
    if start.len() > all.len() {
        return false;
    }
    let mut i: usize = 0;
    while i < start.len()
        invariant
            i <= start@.len() <= all@.len(),
            a == model::views(all@),
            b == model::views(start@),
            forall|k: int| 0 <= k < i ==> #[trigger] a[k] == b[k],
        decreases start@.len() - i,
    {
        assert(a[i as int] == all@[i as int]@ && b[i as int] == start@[i as int]@);
        if !text::same(all[i].as_str(), start[i].as_str()) {
            assert(a.subrange(0, b.len() as int)[i as int] != b[i as int]);
            return false;
        }
        i = i + 1;
    }
    assert(a.subrange(0, b.len() as int) =~= b);
    true
}

/// Whether two paths name one place. Elsewhere than on Windows they do if their
/// components are the same.
pub open spec fn one_place(left: Seq<char>, right: Seq<char>, windows: bool) -> bool {
    if windows {
        path_key(left) == path_key(right)
    } else {
        components(left, '/') == components(right, '/')
    }
}

/// Whether `candidate` lies below `root`. Elsewhere than on Windows it does if its
/// components begin with those of `root`, so that a directory counts as lying
/// below itself.
pub open spec fn lies_within(candidate: Seq<char>, root: Seq<char>, windows: bool) -> bool {
    if windows {
        text::has_prefix(path_key(candidate), path_key(root) + "\\"@)
    } else {
        components(root, '/').is_prefix_of(components(candidate, '/'))
    }
}

/// The components of a canonical path. On Windows either slash separates them.
pub open spec fn canonical_components(path: Seq<char>, windows: bool) -> Seq<Seq<char>> {
    if windows {
        components(text::with_char_replaced(path, '/', '\\'), '\\')
    } else {
        components(path, '/')
    }
}

/// Whether a canonical path is one of something in `directory`, by their
/// components. A directory is not in itself.
pub open spec fn is_inside(path: Seq<char>, directory: Seq<char>, windows: bool) -> bool {
    let outer = canonical_components(directory, windows);
    let inner = canonical_components(path, windows);
    outer.is_prefix_of(inner) && inner != outer
}

/// `canonical_components`, executable.
fn canonical_components_of(path: &str, windows: bool) -> (r: Vec<String>)
    ensures
        model::views(r@) == canonical_components(path@, windows),
{
    if windows {
        let plain = text::replace_char(path, '/', '\\');
        components_of(plain.as_str(), '\\')
    } else {
        components_of(path, '/')
    }
}

/// `is_inside`, executable.
pub fn path_is_inside(path: &str, directory: &str, windows: bool) -> (r: bool)
    ensures
        r == is_inside(path@, directory@, windows),
{
    let outer = canonical_components_of(directory, windows);
    let inner = canonical_components_of(path, windows);
    let ghost a = model::views(inner@);
    let ghost b = model::views(outer@);
    let starts = begins_with(&inner, &outer);
    proof {
        if b.is_prefix_of(a) && a.len() == b.len() {
            assert(a.subrange(0, b.len() as int) =~= a);
        }
    }
    starts && inner.len() > outer.len()
}

/// Whether deleting `target` would delete one of the `protected` directories.
pub open spec fn is_dangerous(
    target: Seq<char>,
    protected: Seq<Seq<char>>,
    windows: bool,
) -> bool {
    exists|i: int|
        0 <= i < protected.len() && (one_place(#[trigger] protected[i], target, windows)
            || lies_within(protected[i], target, windows))
}

/// `one_place`, executable.
pub fn same_path(left: &str, right: &str, windows: bool) -> (r: bool)
    ensures
        r == one_place(left@, right@, windows),
{
    if windows {
        let a = windows_path_key(left);
        let b = windows_path_key(right);
        text::same(a.as_str(), b.as_str())
    } else {
        let a = components_of(left, '/');
        let b = components_of(right, '/');
        let ghost x = model::views(a@);
        let ghost y = model::views(b@);
        assert(x.len() == y.len() && y.is_prefix_of(x) ==> x == y) by {
            if x.len() == y.len() && y.is_prefix_of(x) {
                assert(x.subrange(0, y.len() as int) =~= x);
            }
        }
        assert(x.subrange(0, x.len() as int) =~= x);
        a.len() == b.len() && begins_with(&a, &b)
    }
}

/// `lies_within`, executable.
pub fn path_is_within(candidate: &str, root: &str, windows: bool) -> (r: bool)
    ensures
        r == lies_within(candidate@, root@, windows),
{
    if windows {
        let inner = windows_path_key(candidate);
        let outer = windows_path_key(root);
        let start = text::join2(outer.as_str(), "\\");
        text::starts_with(inner.as_str(), start.as_str())
    } else {
        let inner = components_of(candidate, '/');
        let outer = components_of(root, '/');
        begins_with(&inner, &outer)
    }
}

/// Refuses to delete `target` if that would delete a protected directory.
pub fn reject_dangerous_root(target: &str, protected: &Vec<String>, windows: bool) -> (r: Result<
    (),
    String,
>)
    ensures
        r is Err <==> is_dangerous(target@, model::views(protected@), windows),
        r matches Err(message) ==> message@ == "refusing dangerous install root '"@ + target@
            + "'"@,
{
    let ghost all = model::views(protected@);
    let mut i: usize = 0;
    while i < protected.len()
        invariant
            i <= protected@.len(),
            all == model::views(protected@),
            forall|k: int|
                0 <= k < i ==> !one_place(#[trigger] all[k], target@, windows) && !lies_within(
                    all[k],
                    target@,
                    windows,
                ),
        decreases protected@.len() - i,
    {
        let path = protected[i].as_str();
        assert(path@ == all[i as int]);
        if same_path(path, target, windows) || path_is_within(path, target, windows) {
            return Err(text::join3("refusing dangerous install root '", target, "'"));
        }
        i = i + 1;
    }
    Ok(())
}

/// A protected directory is dangerous, and so is every directory above it.
pub proof fn protected_and_ancestors_are_dangerous(
    target: Seq<char>,
    protected: Seq<Seq<char>>,
    i: int,
    windows: bool,
)
    requires
        0 <= i < protected.len(),
        one_place(protected[i], target, windows) || lies_within(protected[i], target, windows),
    ensures
        is_dangerous(target, protected, windows),
{
}

/// What lies below a directory that lies below a third one lies below that one.
pub proof fn within_is_transitive(
    inner: Seq<char>,
    middle: Seq<char>,
    outer: Seq<char>,
    windows: bool,
)
    requires
        lies_within(inner, middle, windows),
        lies_within(middle, outer, windows),
    ensures
        lies_within(inner, outer, windows),
{
    if windows {
        reveal_strlit("\\");
        let a = path_key(inner);
        let b = path_key(middle);
        let c = path_key(outer);
        let cut = c + "\\"@;
        assert(a.subrange(0, cut.len() as int) =~= cut) by {
            assert(a.subrange(0, (b + "\\"@).len() as int) == b + "\\"@);
            assert(b.subrange(0, cut.len() as int) == cut);
            assert forall|k: int| 0 <= k < cut.len() implies a[k] == cut[k] by {
                assert(a.subrange(0, (b + "\\"@).len() as int)[k] == (b + "\\"@)[k]);
                assert(b.subrange(0, cut.len() as int)[k] == cut[k]);
            }
        }
    } else {
        let a = components(inner, '/');
        let b = components(middle, '/');
        let c = components(outer, '/');
        assert forall|k: int| 0 <= k < c.len() implies a[k] == c[k] by {
            assert(b.subrange(0, c.len() as int)[k] == c[k]);
            assert(a.subrange(0, b.len() as int)[k] == b[k]);
        }
        assert(a.subrange(0, c.len() as int) =~= c);
    }
}

/// Elsewhere than on Windows two paths name one place exactly when each lies below
/// the other one.
pub proof fn one_place_is_mutual(left: Seq<char>, right: Seq<char>)
    ensures
        one_place(left, right, false) <==> lies_within(left, right, false) && lies_within(
            right,
            left,
            false,
        ),
{
    let a = components(left, '/');
    let b = components(right, '/');
    if a.is_prefix_of(b) && b.is_prefix_of(a) {
        assert(a.subrange(0, b.len() as int) =~= a);
    }
    if a == b {
        assert(a.subrange(0, b.len() as int) =~= b);
    }
}

/// On Windows no directory lies below itself.
pub proof fn nothing_is_within_itself(path: Seq<char>)
    ensures
        !lies_within(path, path, true),
{
    reveal_strlit("\\");
}

/// Either slash separates the components of a Windows path.
pub proof fn either_slash_separates(path: Seq<char>, other: Seq<char>)
    requires
        text::with_char_replaced(path, '/', '\\') == text::with_char_replaced(other, '/', '\\'),
    ensures
        one_place(path, other, true),
        canonical_components(path, true) == canonical_components(other, true),
{
}

/// Every component of a path names something but for the sign of the root and the dot
/// at the beginning, and what names something is a component.
pub proof fn components_are_the_names(path: Seq<char>, separator: char, piece: Seq<char>)
    requires
        piece != "."@,
        piece != seq![separator],
    ensures
        components(path, separator).contains(piece) <==> piece.len() > 0 && text::fields(
            path,
            separator,
        ).contains(piece),
{
    broadcast use vstd::seq_lib::group_filter_ensures;

    let pieces = text::fields(path, separator);
    let pick = |p: Seq<char>| is_name(p);
    let names = pieces.filter(pick);
    let all = components(path, separator);
    if names.contains(piece) {
        pieces.lemma_filter_contains_rev(pick, piece);
        let k = choose|k: int| 0 <= k < names.len() && names[k] == piece;
        assert(pick(names[k]));
        if all.len() == names.len() + 1 {
            assert(all[k + 1] == piece);
        } else {
            assert(all[k] == piece);
        }
    }
    if all.contains(piece) {
        let k = choose|k: int| 0 <= k < all.len() && all[k] == piece;
        if all.len() == names.len() + 1 {
            if k > 0 {
                assert(names[k - 1] == piece);
            }
        } else {
            assert(names[k] == piece);
        }
    }
    if piece.len() > 0 && pieces.contains(piece) {
        let k = choose|k: int| 0 <= k < pieces.len() && pieces[k] == piece;
        assert(pick(pieces[k]));
        assert(names.contains(pieces[k]));
    }
}

/// A path that begins at the root is told from one that does not.
pub proof fn rooted_paths_begin_with_the_root(path: Seq<char>, separator: char)
    requires
        path.len() > 0,
        path[0] == separator,
    ensures
        components(path, separator).len() > 0,
        components(path, separator)[0] == seq![separator],
{
}

/// Something lies inside a directory only if it has more components, beginning with
/// those of the directory.
pub proof fn what_lies_inside_lies_deeper(
    path: Seq<char>,
    directory: Seq<char>,
    windows: bool,
)
    ensures
        is_inside(path, directory, windows) <==> canonical_components(directory, windows).len()
            < canonical_components(path, windows).len() && canonical_components(
            path,
            windows,
        ).take(canonical_components(directory, windows).len() as int) == canonical_components(
            directory,
            windows,
        ),
{
    let outer = canonical_components(directory, windows);
    let inner = canonical_components(path, windows);
    if outer.is_prefix_of(inner) {
        assert(inner.take(outer.len() as int) =~= outer);
        if outer.len() == inner.len() {
            assert(outer =~= inner);
        }
    }
}

/// The prefix for long Windows paths is taken off, and that for long paths of the network
/// gives way to two backslashes.
pub proof fn extended_prefixes_are_taken_off(rest: Seq<char>)
    ensures
        without_extended_prefix("\\\\?\\UNC\\"@ + rest) == "\\\\"@ + rest,
        !text::has_prefix("\\\\?\\"@ + rest, "\\\\?\\UNC\\"@) ==> without_extended_prefix(
            "\\\\?\\"@ + rest,
        ) == rest,
        !text::has_prefix(rest, "\\\\?\\"@) && !text::has_prefix(rest, "\\\\?\\UNC\\"@)
            ==> without_extended_prefix(rest) == rest,
{
    let a = "\\\\?\\UNC\\"@;
    let b = "\\\\?\\"@;
    assert((a + rest).subrange(0, a.len() as int) =~= a);
    assert((a + rest).subrange(a.len() as int, (a + rest).len() as int) =~= rest);
    assert((b + rest).subrange(0, b.len() as int) =~= b);
    assert((b + rest).subrange(b.len() as int, (b + rest).len() as int) =~= rest);
}

/// A component ends at the first backslash.
proof fn first_backslash_cuts(head: Seq<char>, rest: Seq<char>)
    requires
        !head.contains('\\'),
    ensures
        text::cut_at(head + "\\"@ + rest, "\\"@) == Some((head, rest)),
        text::cut_at(head, "\\"@) is None,
        "\\"@.len() == 1,
{
    reveal_strlit("\\");
    assert("\\"@ =~= seq!['\\']);
    assert(head + "\\"@ + rest =~= head.push('\\') + rest);
    text_laws::first_occurrence_cuts(head, '\\', rest);
}

/// A component before a backslash is put in its plain form, and what follows it in turn.
proof fn plain_form_of_the_first(head: Seq<char>, rest: Seq<char>)
    requires
        !head.contains('\\'),
    ensures
        plain_components(head + "\\"@ + rest) == plain_component(head) + "\\"@ + plain_components(
            rest,
        ),
        plain_components(head) == plain_component(head),
{
    first_backslash_cuts(head, rest);
}

/// The directories above a place, each with a backslash behind it.
pub open spec fn above(names: Seq<Seq<char>>) -> Seq<char>
    decreases names.len(),
{
    if names.len() == 0 {
        Seq::empty()
    } else {
        names[0] + "\\"@ + above(names.skip(1))
    }
}

/// The product's directory goes by two names, wherever it stands in a path, and every
/// other directory by its own.
pub proof fn product_directory_goes_by_two_names(names: Seq<Seq<char>>, below: Seq<char>)
    requires
        forall|i: int| 0 <= i < names.len() ==> !(#[trigger] names[i]).contains('\\'),
    ensures
        plain_components(above(names) + "qaq-harness"@) == plain_components(
            above(names) + "qaqh"@,
        ),
        plain_components(above(names) + ("qaq-harness"@ + "\\"@ + below)) == plain_components(
            above(names) + ("qaqh"@ + "\\"@ + below),
        ),
        forall|name: Seq<char>|
            name != "qaq-harness"@ ==> #[trigger] plain_component(name) == name,
    decreases names.len(),
{
    reveal_strlit("qaq-harness");
    reveal_strlit("qaqh");
    let long = "qaq-harness"@;
    let short = "qaqh"@;
    assert(short.len() == 4 && long.len() == 11);
    if names.len() == 0 {
        plain_form_of_the_first(long, below);
        plain_form_of_the_first(short, below);
        assert(above(names) + long =~= long);
        assert(above(names) + short =~= short);
        assert(above(names) + (long + "\\"@ + below) =~= long + "\\"@ + below);
        assert(above(names) + (short + "\\"@ + below) =~= short + "\\"@ + below);
    } else {
        let rest = names.skip(1);
        assert forall|i: int| 0 <= i < rest.len() implies !(#[trigger] rest[i]).contains(
            '\\',
        ) by {
            assert(!names[i + 1].contains('\\'));
        }
        product_directory_goes_by_two_names(rest, below);
        let first = names[0];
        let inner_long = long + "\\"@ + below;
        let inner_short = short + "\\"@ + below;
        plain_form_of_the_first(first, above(rest) + long);
        plain_form_of_the_first(first, above(rest) + short);
        plain_form_of_the_first(first, above(rest) + inner_long);
        plain_form_of_the_first(first, above(rest) + inner_short);
        assert(above(names) + long =~= first + "\\"@ + (above(rest) + long));
        assert(above(names) + short =~= first + "\\"@ + (above(rest) + short));
        assert(above(names) + inner_long =~= first + "\\"@ + (above(rest) + inner_long));
        assert(above(names) + inner_short =~= first + "\\"@ + (above(rest) + inner_short));
    }
}

} // verus!
