//! State of the main panel: its filters, and the symbols it shows.
use vstd::prelude::*;
use vstd::string::StrSliceExecFns;

verus! {

/// Symbol for "up". ASCII, so that every platform's dialog font can show it.
pub fn arrow_up_symbol() -> (r: &'static str)
    ensures
        r@ == "Up"@,
{
    proof {
        reveal_strlit("Up");
    }
    "Up"
}

/// Symbol for "down".
pub fn arrow_down_symbol() -> (r: &'static str)
    ensures
        r@ == "Down"@,
{
    proof {
        reveal_strlit("Down");
    }
    "Down"
}

/// Symbol for "left".
pub fn arrow_left_symbol() -> (r: &'static str)
    ensures
        r@ == "<="@,
{
    proof {
        reveal_strlit("<=");
    }
    "<="
}

/// Symbol for "right".
pub fn arrow_right_symbol() -> (r: &'static str)
    ensures
        r@ == "=>"@,
{
    proof {
        reveal_strlit("=>");
    }
    "=>"
}

/// Id of a mapping group.
#[derive(Clone, Copy, Debug, PartialEq, Eq, Hash, Structural)]
pub struct GroupId {
    pub id: u64,
}

#[derive(Clone, Copy, Debug, PartialEq, Eq, Hash, Structural)]
pub enum GroupFilter {
    MainGroup,
    OtherGroup(GroupId),
}

#[derive(Clone, Copy, Debug, PartialEq, Eq, Hash, Structural)]
pub enum MappingCompartment {
    ControllerMappings,
    MainMappings,
}

/// Whether `c` has the Unicode `White_Space` property.
pub open spec fn is_white_space(c: char) -> bool {
    ||| '\u{9}' <= c <= '\u{d}'
    ||| c == ' '
    ||| c == '\u{85}'
    ||| c == '\u{a0}'
    ||| c == '\u{1680}'
    ||| '\u{2000}' <= c <= '\u{200a}'
    ||| c == '\u{2028}'
    ||| c == '\u{2029}'
    ||| c == '\u{202f}'
    ||| c == '\u{205f}'
    ||| c == '\u{3000}'
}

/// Whether `s` holds nothing but white space, so that trimming it leaves it empty.
pub open spec fn is_blank(s: Seq<char>) -> bool {
    forall|i: int| 0 <= i < s.len() ==> is_white_space(#[trigger] s[i])
}

fn char_is_white_space(c: char) -> (r: bool)
    ensures
        r == is_white_space(c),
{
    ('\u{9}' <= c && c <= '\u{d}') || c == ' ' || c == '\u{85}' || c == '\u{a0}' || c == '\u{1680}'
        || ('\u{2000}' <= c && c <= '\u{200a}') || c == '\u{2028}' || c == '\u{2029}' || c == '\u{202f}'
        || c == '\u{205f}' || c == '\u{3000}'
}

/// Whether `s` holds nothing but white space.
pub fn str_is_blank(s: &str) -> (r: bool)
    ensures
        r == is_blank(s@),
{
    let n = s.unicode_len();
    let mut i: usize = 0;
    while i < n
        invariant
            n == s@.len(),
            i <= n,
            forall|k: int| 0 <= k < i ==> is_white_space(#[trigger] s@[k]),
        decreases n - i,
    {
        if !char_is_white_space(s.get_char(i)) {
            return false;
        }
        i = i + 1;
    }
    true
}

/// State of the main panel. `T` is the kind of target and `S` the kind of source that the
/// filters hold.
#[derive(Debug)]
pub struct MainState<T, S> {
    pub target_filter: Option<T>,
    pub is_learning_target_filter: bool,
    pub source_filter: Option<S>,
    pub is_learning_source_filter: bool,
    pub active_compartment: MappingCompartment,
    pub group_filter: Option<GroupFilter>,
    pub search_expression: String,
    pub status_msg: String,
}

impl<T, S> Default for MainState<T, S> {
    /// No filter but the main group, showing the main mappings.
    fn default() -> (r: MainState<T, S>)
        ensures
            r.target_filter is None,
            !r.is_learning_target_filter,
            r.source_filter is None,
            !r.is_learning_source_filter,
            r.active_compartment == MappingCompartment::MainMappings,
            r.group_filter == Some(GroupFilter::MainGroup),
            r.search_expression@ == Seq::<char>::empty(),
            r.status_msg@ == Seq::<char>::empty(),
    {
        MainState {
            target_filter: None,
            is_learning_target_filter: false,
            source_filter: None,
            is_learning_source_filter: false,
            active_compartment: MappingCompartment::MainMappings,
            group_filter: Some(GroupFilter::MainGroup),
            search_expression: String::new(),
            status_msg: String::new(),
        }
    }
}

impl<T, S> MainState<T, S> {
    /// Drops the source, target and group filters.
    pub fn clear_filters(&mut self)
        ensures
            final(self).source_filter is None,
            final(self).target_filter is None,
            final(self).group_filter is None,
            final(self).is_learning_target_filter == old(self).is_learning_target_filter,
            final(self).is_learning_source_filter == old(self).is_learning_source_filter,
            final(self).active_compartment == old(self).active_compartment,
            final(self).search_expression == old(self).search_expression,
            final(self).status_msg == old(self).status_msg,
    {
        self.clear_source_filter();
        self.clear_target_filter();
        self.group_filter = None;
    }

    pub fn clear_source_filter(&mut self)
        ensures
            final(self).source_filter is None,
            final(self).target_filter == old(self).target_filter,
            final(self).group_filter == old(self).group_filter,
            final(self).is_learning_target_filter == old(self).is_learning_target_filter,
            final(self).is_learning_source_filter == old(self).is_learning_source_filter,
            final(self).active_compartment == old(self).active_compartment,
            final(self).search_expression == old(self).search_expression,
            final(self).status_msg == old(self).status_msg,
    {
        self.source_filter = None;
    }

    pub fn clear_target_filter(&mut self)
        ensures
            final(self).target_filter is None,
            final(self).source_filter == old(self).source_filter,
            final(self).group_filter == old(self).group_filter,
            final(self).is_learning_target_filter == old(self).is_learning_target_filter,
            final(self).is_learning_source_filter == old(self).is_learning_source_filter,
            final(self).active_compartment == old(self).active_compartment,
            final(self).search_expression == old(self).search_expression,
            final(self).status_msg == old(self).status_msg,
    {
        self.target_filter = None;
    }

    /// Whether any filter narrows what the panel shows: a group, source or target filter, or
    /// a search expression with more than white space.
    pub fn filter_is_active(&self) -> (r: bool)
        ensures
            r == (self.group_filter is Some || self.source_filter is Some || self.target_filter is Some
                || !is_blank(self.search_expression@)),
    {
        self.group_filter.is_some() || self.source_filter.is_some() || self.target_filter.is_some()
            || !str_is_blank(self.search_expression.as_str())
    }
}

} // verus!
