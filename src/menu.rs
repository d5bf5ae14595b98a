use vstd::prelude::*;

verus! {

/// Records shown on one page of the score list.
pub const PAGE_SIZE: usize = 10;

/// Where the menus stand: the menu shown and the option highlighted in it.
#[derive(Clone, Copy, Debug, PartialEq, Eq, Structural)]
pub struct MenuCursor {
    pub current_menu: usize,
    pub current_index: usize,
}

impl MenuCursor {
    /// The first option of the first menu.
    pub fn new() -> (c: MenuCursor)
        ensures
            c == (MenuCursor { current_menu: 0, current_index: 0 }),
    {
        MenuCursor { current_menu: 0, current_index: 0 }
    }

    /// Opens menu `submenu_index` at its first option.
    pub fn navigate_to_submenu(&mut self, submenu_index: usize)
        ensures
            *final(self) == (MenuCursor { current_menu: submenu_index, current_index: 0 }),
    {
        self.current_menu = submenu_index;
        self.current_index = 0;
    }

    /// Goes back to the parent menu, at its first option; a menu without a parent stays,
    /// at its first option.
    pub fn back_to_parent(&mut self, parent: Option<usize>)
        ensures
            final(self).current_index == 0,
            final(self).current_menu == match parent {
                Some(p) => p,
                None => old(self).current_menu,
            },
    {
        if let Some(p) = parent {
            self.current_menu = p;
        }
        self.current_index = 0;
    }

    /// Highlights the next or the previous option, staying within the `option_count`
    /// options of the menu.
    pub fn move_index(&mut self, next: bool, option_count: usize)
        requires
            option_count >= 1,
        ensures
            final(self).current_menu == old(self).current_menu,
            final(self).current_index == ({
                let moved = if next {
                    if old(self).current_index == usize::MAX { usize::MAX as int } else { old(self).current_index + 1 }
                } else {
                    if old(self).current_index == 0 { 0 } else { old(self).current_index - 1 }
                };
                if moved > option_count - 1 { option_count - 1 } else { moved }
            }),
    {
        let moved = if next {
            self.current_index.saturating_add(1)
        } else {
            self.current_index.saturating_sub(1)
        };
        self.current_index = if moved > option_count - 1 {
            option_count - 1
        } else {
            moved
        };
    }
}

/// The records of page `part` (counted from 1) of a list of `total` records, ten to a
/// page: the range `start .. end`, and whether `part` lay past the last page, in which case
/// the last page is given. An empty list gives an empty range.
pub fn score_page(part: usize, total: usize) -> (r: (usize, usize, bool))
    requires
        part >= 1,
    ensures
        total == 0 ==> r == (0usize, 0usize, false),
        total > 0 ==> {
            let pages = (total + 9) / 10;
            let p = if part > pages { pages } else { part as int };
            &&& r.0 == (p - 1) * 10
            &&& r.1 == if r.0 + 10 > total { total as int } else { r.0 + 10 }
            &&& r.2 == (part > pages)
        },
{
    if total == 0 {
        return (0, 0, false);
    }
    let pages = total / PAGE_SIZE + if total % PAGE_SIZE == 0 { 0 } else { 1 };
    assert(pages == (total + 9) / 10);
    let p = if part > pages {
        pages
    } else {
        part
    };
    assert((p - 1) * 10 <= total) by (nonlinear_arith)
        requires
            p >= 1,
            p <= pages,
            pages == (total + 9) / 10,
    ;
    let start = (p - 1) * PAGE_SIZE;
    let end = if total - start < PAGE_SIZE {
        total
    } else {
        start + PAGE_SIZE
    };
    (start, end, part > pages)
}

} // verus!
