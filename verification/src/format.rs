//! Joining rendered items with a separator, once.

use vstd::prelude::*;

verus! {

/// The items one after another, with `sep` between each two of them: nothing
/// before the first and nothing after the last.
pub open spec fn joined(items: Seq<Seq<char>>, sep: Seq<char>) -> Seq<char>
    decreases items.len(),
{
    if items.len() == 0 {
        Seq::empty()
    } else if items.len() == 1 {
        items[0]
    } else {
        joined(items.drop_last(), sep) + sep + items.last()
    }
}

/// What the strings hold, one sequence of characters for each.
pub open spec fn texts(items: Seq<String>) -> Seq<Seq<char>> {
    items.map_values(|s: String| s@)
}

/// Joins the items with `sep` between each two of them.
pub fn join(items: &Vec<String>, sep: &str) -> (out: String)
    ensures
        out@ == joined(texts(items@), sep@),
{
    let mut out = String::new();
    let mut i: usize = 0;
    while i < items.len()
        invariant
            i <= items.len(),
            out@ == joined(texts(items@).take(i as int), sep@),
        decreases items.len() - i,
    {
        proof {
            let all = texts(items@);
            assert(all.take(i + 1).drop_last() =~= all.take(i as int));
            assert(all.take(i + 1).last() == items@[i as int]@);
            assert(joined(Seq::<Seq<char>>::empty(), sep@) + sep@ + all[0] =~= sep@ + all[0]);
        }
        if i > 0 {
            out.append(sep);
        }
        out.append(items[i].as_str());
        i = i + 1;
    }
    proof {
        assert(texts(items@).take(items.len() as int) =~= texts(items@));
    }
    out
}

/// Rendered items waiting to be joined with a separator.
///
/// The value can be formatted once; after that it is spent.
#[derive(Clone, Debug)]
pub struct Format<'a> {
    sep: &'a str,
    inner: Option<Vec<String>>,
}

/// Joins `items` lazily, with `separator` between each two of them.
pub fn new_format_default(items: Vec<String>, separator: &str) -> (format: Format<'_>)
    ensures
        format.separator() == separator@,
        format.pending() == Some(items@),
{
    Format { sep: separator, inner: Some(items) }
}

impl<'a> Format<'a> {
    /// The separator.
    pub closed spec fn separator(&self) -> Seq<char> {
        self.sep@
    }

    /// The items that wait to be formatted; `None` once they have been.
    pub closed spec fn pending(&self) -> Option<Seq<String>> {
        match self.inner {
            Some(items) => Some(items@),
            None => None,
        }
    }

    /// Whether the value has been formatted already.
    pub fn is_spent(&self) -> (spent: bool)
        ensures
            spent == (self.pending() is None),
    {
        self.inner.is_none()
    }

    /// Formats the items, with the separator between each two of them, and
    /// leaves the value spent.
    pub fn format(&mut self) -> (out: String)
        requires
            old(self).pending() is Some,
        ensures
            out@ == joined(texts(old(self).pending().unwrap()), old(self).separator()),
            final(self).pending() is None,
            final(self).separator() == old(self).separator(),
    {
        let mut taken: Option<Vec<String>> = None;
        std::mem::swap(&mut self.inner, &mut taken);
        let items = taken.unwrap();
        join(&items, self.sep)
    }
}

/// Whether `pieces` can be what `render` gives for `items`, item by item.
pub open spec fn rendered_by<T, F: Fn(T) -> String>(
    render: F,
    items: Seq<T>,
    pieces: Seq<String>,
) -> bool {
    &&& pieces.len() == items.len()
    &&& forall|i: int| 0 <= i < items.len() ==> call_ensures(render, (items[i],), #[trigger] pieces[i])
}

/// Renders every item, in order.
pub fn render_all<T, F: Fn(T) -> String>(items: Vec<T>, render: &F) -> (pieces: Vec<String>)
    requires
        forall|i: int| 0 <= i < items.len() ==> call_requires(*render, (#[trigger] items@[i],)),
    ensures
        rendered_by(*render, items@, pieces@),
{
    let ghost all = items@;
    let mut pieces: Vec<String> = Vec::new();
    for item in it: items.into_iter()
        invariant
            it.seq() == all,
            forall|i: int| 0 <= i < all.len() ==> call_requires(*render, (#[trigger] all[i],)),
            pieces.len() == it.index(),
            forall|i: int|
                0 <= i < it.index() ==> call_ensures(*render, (all[i],), #[trigger] pieces@[i]),
    {
        let piece = render(item);
        pieces.push(piece);
    }
    pieces
}

/// Items waiting to be rendered, each by the same function, and joined with
/// a separator.
///
/// The value can be formatted once; after that it is spent.
#[derive(Clone)]
pub struct FormatWith<'a, T, F> {
    sep: &'a str,
    inner: Option<(Vec<T>, F)>,
}

/// Renders `items` lazily, each with `f`, with `separator` between each two
/// of them.
pub fn new_format<T, F: Fn(T) -> String>(items: Vec<T>, separator: &str, f: F) -> (format:
    FormatWith<'_, T, F>)
    ensures
        format.separator() == separator@,
        format.pending() == Some((items@, f)),
{
    FormatWith { sep: separator, inner: Some((items, f)) }
}

impl<'a, T, F: Fn(T) -> String> FormatWith<'a, T, F> {
    /// The separator.
    pub closed spec fn separator(&self) -> Seq<char> {
        self.sep@
    }

    /// The items that wait to be formatted, and the function that renders
    /// them; `None` once they have been formatted.
    pub closed spec fn pending(&self) -> Option<(Seq<T>, F)> {
        match self.inner {
            Some((items, f)) => Some((items@, f)),
            None => None,
        }
    }

    /// Whether the function that renders accepts every item that waits.
    pub open spec fn can_render(&self) -> bool {
        &&& self.pending() is Some
        &&& forall|i: int|
            0 <= i < self.pending().unwrap().0.len() ==> call_requires(
                self.pending().unwrap().1,
                (#[trigger] self.pending().unwrap().0[i],),
            )
    }

    /// Whether the value has been formatted already.
    pub fn is_spent(&self) -> (spent: bool)
        ensures
            spent == (self.pending() is None),
    {
        self.inner.is_none()
    }

    /// Renders the items, joins what came of them with the separator between
    /// each two, and leaves the value spent.
    pub fn fmt(&mut self) -> (out: String)
        requires
            old(self).can_render(),
        ensures
            exists|pieces: Seq<String>|
                {
                    &&& #[trigger] rendered_by(
                        old(self).pending().unwrap().1,
                        old(self).pending().unwrap().0,
                        pieces,
                    )
                    &&& out@ == joined(texts(pieces), old(self).separator())
                },
            final(self).pending() is None,
            final(self).separator() == old(self).separator(),
    {
        let mut taken: Option<(Vec<T>, F)> = None;
        std::mem::swap(&mut self.inner, &mut taken);
        let (items, f) = taken.unwrap();
        let ghost waiting = items@;
        assert(old(self).pending().unwrap().0 == waiting);
        assert(old(self).pending().unwrap().1 == f);
        assert forall|i: int| 0 <= i < waiting.len() implies call_requires(
            f,
            (#[trigger] waiting[i],),
        ) by {
            assert(call_requires(old(self).pending().unwrap().1, (old(self).pending().unwrap().0[i],)));
        }
        let pieces = render_all(items, &f);
        assert(rendered_by(f, waiting, pieces@));
        join(&pieces, self.sep)
    }
}

} // verus!
