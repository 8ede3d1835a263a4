//! The optional search filters that a C caller hands over, and how they
//! override the settings of a factory search.

use vstd::prelude::*;
use vstd::utf8::{decode_utf8, valid_utf8};
use crate::ctext::decode_text;

verus! {

/// Order of a factory listing.
#[derive(Clone, Copy, Debug, PartialEq, Eq, Structural)]
pub enum OrderType {
    Suggested,
    CombatRating,
    CosmeticRating,
    Added,
    Cpu,
    MostBought,
}

/// Which names a text search looks at.
#[derive(Clone, Copy, Debug, PartialEq, Eq, Structural)]
pub enum TextSearchType {
    All,
    Player,
    Name,
}

/// The order with the given code, if there is one.
pub open spec fn order_of_code(code: u8) -> Option<OrderType> {
    if code == 0 {
        Some(OrderType::Suggested)
    } else if code == 1 {
        Some(OrderType::CombatRating)
    } else if code == 2 {
        Some(OrderType::CosmeticRating)
    } else if code == 3 {
        Some(OrderType::Added)
    } else if code == 4 {
        Some(OrderType::Cpu)
    } else if code == 5 {
        Some(OrderType::MostBought)
    } else {
        None
    }
}

/// The text search mode with the given code, if there is one.
pub open spec fn text_search_of_code(code: u8) -> Option<TextSearchType> {
    if code == 0 {
        Some(TextSearchType::All)
    } else if code == 1 {
        Some(TextSearchType::Player)
    } else if code == 2 {
        Some(TextSearchType::Name)
    } else {
        None
    }
}

/// The order that a caller's code selects: the order with that code, or
/// `Suggested` where the code is out of range.
pub open spec fn order_selected(code: i32) -> OrderType {
    if 0 <= code <= 5 {
        match order_of_code(code as u8) {
            Some(o) => o,
            None => OrderType::Suggested,
        }
    } else {
        OrderType::Suggested
    }
}

/// The text search mode that a caller's code selects: the mode with that
/// code, or `All` where the code is out of range.
pub open spec fn text_search_selected(code: i32) -> TextSearchType {
    if 0 <= code <= 2 {
        match text_search_of_code(code as u8) {
            Some(t) => t,
            None => TextSearchType::All,
        }
    } else {
        TextSearchType::All
    }
}

/// The text of a caller's bytes: their UTF-8 reading, or the empty text
/// where they are not valid UTF-8.
pub open spec fn text_or_empty(b: Seq<u8>) -> Seq<char> {
    if valid_utf8(b) { decode_utf8(b) } else { Seq::empty() }
}

impl OrderType {
    /// The order with the given code, if there is one.
    pub fn from_code(code: u8) -> (r: Option<OrderType>)
        ensures
            r == order_of_code(code),
    {
        match code {
            0 => Some(OrderType::Suggested),
            1 => Some(OrderType::CombatRating),
            2 => Some(OrderType::CosmeticRating),
            3 => Some(OrderType::Added),
            4 => Some(OrderType::Cpu),
            5 => Some(OrderType::MostBought),
            _ => None,
        }
    }

    /// The code of the order.
    pub fn code(&self) -> (r: u8)
        ensures
            order_of_code(r) == Some(*self),
    {
        match self {
            OrderType::Suggested => 0,
            OrderType::CombatRating => 1,
            OrderType::CosmeticRating => 2,
            OrderType::Added => 3,
            OrderType::Cpu => 4,
            OrderType::MostBought => 5,
        }
    }
}

impl TextSearchType {
    /// The text search mode with the given code, if there is one.
    pub fn from_code(code: u8) -> (r: Option<TextSearchType>)
        ensures
            r == text_search_of_code(code),
    {
        match code {
            0 => Some(TextSearchType::All),
            1 => Some(TextSearchType::Player),
            2 => Some(TextSearchType::Name),
            _ => None,
        }
    }

    /// The code of the mode.
    pub fn code(&self) -> (r: u8)
        ensures
            text_search_of_code(r) == Some(*self),
    {
        match self {
            TextSearchType::All => 0,
            TextSearchType::Player => 1,
            TextSearchType::Name => 2,
        }
    }
}

/// The settings of a factory search that a caller may override. `None`
/// keeps the search's own default for that setting.
pub struct SearchSettings {
    pub page: Option<isize>,
    pub items_per_page: Option<isize>,
    pub order: Option<OrderType>,
    pub movement: Option<String>,
    pub weapon: Option<String>,
    pub min_cpu: Option<isize>,
    pub max_cpu: Option<isize>,
    pub text: Option<String>,
    pub text_search: Option<TextSearchType>,
    pub buyable: Option<bool>,
    pub prepend_featured: Option<bool>,
    pub default_page: Option<bool>,
}

/// The value of `SearchSettings`, texts as character sequences.
pub struct SearchSettingsView {
    pub page: Option<isize>,
    pub items_per_page: Option<isize>,
    pub order: Option<OrderType>,
    pub movement: Option<Seq<char>>,
    pub weapon: Option<Seq<char>>,
    pub min_cpu: Option<isize>,
    pub max_cpu: Option<isize>,
    pub text: Option<Seq<char>>,
    pub text_search: Option<TextSearchType>,
    pub buyable: Option<bool>,
    pub prepend_featured: Option<bool>,
    pub default_page: Option<bool>,
}

/// The characters of an optional text.
pub open spec fn opt_chars(o: Option<String>) -> Option<Seq<char>> {
    match o {
        Some(s) => Some(s@),
        None => None,
    }
}

impl View for SearchSettings {
    type V = SearchSettingsView;

    open spec fn view(&self) -> SearchSettingsView {
        SearchSettingsView {
            page: self.page,
            items_per_page: self.items_per_page,
            order: self.order,
            movement: opt_chars(self.movement),
            weapon: opt_chars(self.weapon),
            min_cpu: self.min_cpu,
            max_cpu: self.max_cpu,
            text: opt_chars(self.text),
            text_search: self.text_search,
            buyable: self.buyable,
            prepend_featured: self.prepend_featured,
            default_page: self.default_page,
        }
    }
}

impl SearchSettings {
    /// Settings that override nothing: the search's own defaults.
    pub fn new() -> (r: SearchSettings)
        ensures
            r@ == (SearchSettingsView {
                page: None,
                items_per_page: None,
                order: None,
                movement: None,
                weapon: None,
                min_cpu: None,
                max_cpu: None,
                text: None,
                text_search: None,
                buyable: None,
                prepend_featured: None,
                default_page: None,
            }),
    {
        SearchSettings {
            page: None,
            items_per_page: None,
            order: None,
            movement: None,
            weapon: None,
            min_cpu: None,
            max_cpu: None,
            text: None,
            text_search: None,
            buyable: None,
            prepend_featured: None,
            default_page: None,
        }
    }
}

/// The search filters of a C caller, each absent or holding one value.
/// Texts are the bytes of the caller's C string, without its terminator;
/// flags are integers, where nonzero means true.
pub struct FactorySearchQuery {
    pub page: Option<i32>,
    pub items_per_page: Option<i32>,
    pub order: Option<i32>,
    pub movement_filter: Option<Vec<u8>>,
    pub weapon_filter: Option<Vec<u8>>,
    pub minimum_cpu: Option<i32>,
    pub maximum_cpu: Option<i32>,
    pub text_filter: Option<Vec<u8>>,
    pub text_search_field: Option<i32>,
    pub buyable: Option<u32>,
    pub prepend_featured_robot: Option<u32>,
    pub featured_only: Option<u32>,
    pub default_page: Option<u32>,
}

/// A present value overrides; an absent one keeps `keep`.
pub open spec fn override_with<T>(o: Option<T>, keep: Option<T>) -> Option<T> {
    match o {
        Some(v) => Some(v),
        None => keep,
    }
}

/// The override of an integer setting by a caller's value.
pub open spec fn int_override(o: Option<i32>, keep: Option<isize>) -> Option<isize> {
    match o {
        Some(v) => Some(v as isize),
        None => keep,
    }
}

/// The override of a text setting by a caller's bytes.
pub open spec fn text_override(o: Option<Seq<u8>>, keep: Option<Seq<char>>) -> Option<Seq<char>> {
    match o {
        Some(b) => Some(text_or_empty(b)),
        None => keep,
    }
}

/// The override of a flag by a caller's integer.
pub open spec fn flag_override(o: Option<u32>, keep: Option<bool>) -> Option<bool> {
    match o {
        Some(v) => Some(v != 0),
        None => keep,
    }
}

/// The bytes of an optional caller text.
pub open spec fn opt_bytes(o: Option<Vec<u8>>) -> Option<Seq<u8>> {
    match o {
        Some(b) => Some(b@),
        None => None,
    }
}

impl FactorySearchQuery {
    /// No filter is given.
    pub open spec fn is_unset(&self) -> bool {
        &&& self.page is None
        &&& self.items_per_page is None
        &&& self.order is None
        &&& self.movement_filter is None
        &&& self.weapon_filter is None
        &&& self.minimum_cpu is None
        &&& self.maximum_cpu is None
        &&& self.text_filter is None
        &&& self.text_search_field is None
        &&& self.buyable is None
        &&& self.prepend_featured_robot is None
        &&& self.featured_only is None
        &&& self.default_page is None
    }

    /// The settings `s` with this query's filters applied.
    pub open spec fn applied_to(&self, s: SearchSettingsView) -> SearchSettingsView {
        SearchSettingsView {
            page: int_override(self.page, s.page),
            items_per_page: int_override(self.items_per_page, s.items_per_page),
            order: match self.order {
                Some(c) => Some(order_selected(c)),
                None => s.order,
            },
            movement: text_override(opt_bytes(self.movement_filter), s.movement),
            weapon: text_override(opt_bytes(self.weapon_filter), s.weapon),
            min_cpu: int_override(self.minimum_cpu, s.min_cpu),
            max_cpu: int_override(self.maximum_cpu, s.max_cpu),
            text: text_override(opt_bytes(self.text_filter), s.text),
            text_search: match self.text_search_field {
                Some(c) => Some(text_search_selected(c)),
                None => s.text_search,
            },
            buyable: flag_override(self.buyable, s.buyable),
            prepend_featured: flag_override(self.prepend_featured_robot, s.prepend_featured),
            default_page: flag_override(self.default_page, s.default_page),
        }
    }
}

/// The text of a caller's bytes, the empty text where they are not UTF-8.
fn caller_text(b: &Vec<u8>) -> (r: String)
    ensures
        r@ == text_or_empty(b@),
{
    let mut copy: Vec<u8> = Vec::new();
    let mut i: usize = 0;
    while i < b.len()
        invariant
            i <= b@.len(),
            copy@ == b@.subrange(0, i as int),
        decreases b@.len() - i,
    {
        copy.push(b[i]);
        i = i + 1;
        assert(copy@ =~= b@.subrange(0, i as int));
    }
    assert(copy@ =~= b@);
    match decode_text(copy) {
        Some(s) => s,
        None => String::new(),
    }
}

impl FactorySearchQuery {
    /// Applies the filters that are given to `query`, in this order: page,
    /// items per page, order, movement filter, weapon filter, minimum CPU,
    /// maximum CPU, text filter, text search field, buyable, prepend
    /// featured, default page. An absent filter keeps the setting; a code
    /// that names no order or search mode selects the default one; text
    /// that is not UTF-8 becomes empty. `featured_only` is carried without
    /// effect: a factory search has no such setting.
    pub fn apply(&self, query: SearchSettings) -> (r: SearchSettings)
        ensures
            r@ == self.applied_to(query@),
    {
        let mut result = query;
        if let Some(p) = self.page {
            result.page = Some(p as isize);
        }
        if let Some(n) = self.items_per_page {
            result.items_per_page = Some(n as isize);
        }
        if let Some(c) = self.order {
            result.order = Some(
                if 0 <= c && c <= 5 {
                    match OrderType::from_code(c as u8) {
                        Some(o) => o,
                        None => OrderType::Suggested,
                    }
                } else {
                    OrderType::Suggested
                },
            );
        }
        if let Some(b) = &self.movement_filter {
            result.movement = Some(caller_text(b));
        }
        if let Some(b) = &self.weapon_filter {
            result.weapon = Some(caller_text(b));
        }
        if let Some(c) = self.minimum_cpu {
            result.min_cpu = Some(c as isize);
        }
        if let Some(c) = self.maximum_cpu {
            result.max_cpu = Some(c as isize);
        }
        if let Some(b) = &self.text_filter {
            result.text = Some(caller_text(b));
        }
        if let Some(c) = self.text_search_field {
            result.text_search = Some(
                if 0 <= c && c <= 2 {
                    match TextSearchType::from_code(c as u8) {
                        Some(t) => t,
                        None => TextSearchType::All,
                    }
                } else {
                    TextSearchType::All
                },
            );
        }
        if let Some(v) = self.buyable {
            result.buyable = Some(v != 0);
        }
        if let Some(v) = self.prepend_featured_robot {
            result.prepend_featured = Some(v != 0);
        }
        if let Some(v) = self.default_page {
            result.default_page = Some(v != 0);
        }
        result
    }
}

/// A query that gives no filter leaves any settings as they are.
pub proof fn lemma_unset_query_keeps_settings(q: FactorySearchQuery, s: SearchSettingsView)
    requires
        q.is_unset(),
    ensures
        q.applied_to(s) == s,
{
}

/// A given order code that names no order selects `Suggested`, and the
/// call goes on.
pub proof fn lemma_unknown_order_selects_suggested(q: FactorySearchQuery, s: SearchSettingsView)
    requires
        q.order matches Some(c) && (c < 0 || c > 5),
    ensures
        q.applied_to(s).order == Some(OrderType::Suggested),
{
}

/// A given text search code that names no mode selects `All`, and the
/// call goes on.
pub proof fn lemma_unknown_text_search_selects_all(q: FactorySearchQuery, s: SearchSettingsView)
    requires
        q.text_search_field matches Some(c) && (c < 0 || c > 2),
    ensures
        q.applied_to(s).text_search == Some(TextSearchType::All),
{
}

} // verus!
