//! Names of cursor shapes, and the table that maps the handle of a displayed
//! cursor to the name of its shape.

use vstd::prelude::*;
use vstd::string::StringSliceAdditionalSpecFns;

verus! {

/// Whether `name` is one of the seventeen standard shape names.
pub open spec fn is_standard_shape(name: Seq<char>) -> bool {
    ||| name == "arrow"@
    ||| name == "ibeam"@
    ||| name == "wait"@
    ||| name == "cross"@
    ||| name == "up_arrow"@
    ||| name == "size"@
    ||| name == "size_nw_se"@
    ||| name == "size_ne_sw"@
    ||| name == "size_we"@
    ||| name == "size_ns"@
    ||| name == "size_all"@
    ||| name == "no"@
    ||| name == "hand"@
    ||| name == "app_starting"@
    ||| name == "help"@
    ||| name == "pin"@
    ||| name == "person"@
}

/// The name under which a shape is reported: a standard name stands for
/// itself, every other name is reported as "custom".
pub open spec fn canonical_shape(name: Seq<char>) -> Seq<char> {
    if is_standard_shape(name) {
        name
    } else {
        "custom"@
    }
}

/// Whether two strings hold the same characters, decided on their UTF-8
/// bytes.
pub fn same_text(a: &str, b: &str) -> (same: bool)
    ensures
        same == (a@ == b@),
{
    let x = a.as_bytes();
    let y = b.as_bytes();
    proof {
        vstd::utf8::encode_utf8_decode_utf8(a@);
        vstd::utf8::encode_utf8_decode_utf8(b@);
    }
    if x.len() != y.len() {
        return false;
    }
    let mut i: usize = 0;
    while i < x.len()
        invariant
            i <= x.len(),
            x.len() == y.len(),
            forall|j: int| 0 <= j < i ==> x@[j] == y@[j],
            x@ == a.spec_bytes(),
            y@ == b.spec_bytes(),
            vstd::utf8::decode_utf8(a.spec_bytes()) == a@,
            vstd::utf8::decode_utf8(b.spec_bytes()) == b@,
        decreases x.len() - i,
    {
        if x[i] != y[i] {
            return false;
        }
        i = i + 1;
    }
    assert(x@ =~= y@);
    true
}

/// Maps a shape name to its static spelling: a standard name to itself,
/// anything else to "custom".
pub fn get_cursor_type_static(name: &str) -> (shape: &'static str)
    ensures
        shape@ == canonical_shape(name@),
{
    if same_text(name, "arrow") {
        "arrow"
    } else if same_text(name, "ibeam") {
        "ibeam"
    } else if same_text(name, "wait") {
        "wait"
    } else if same_text(name, "cross") {
        "cross"
    } else if same_text(name, "up_arrow") {
        "up_arrow"
    } else if same_text(name, "size") {
        "size"
    } else if same_text(name, "size_nw_se") {
        "size_nw_se"
    } else if same_text(name, "size_ne_sw") {
        "size_ne_sw"
    } else if same_text(name, "size_we") {
        "size_we"
    } else if same_text(name, "size_ns") {
        "size_ns"
    } else if same_text(name, "size_all") {
        "size_all"
    } else if same_text(name, "no") {
        "no"
    } else if same_text(name, "hand") {
        "hand"
    } else if same_text(name, "app_starting") {
        "app_starting"
    } else if same_text(name, "help") {
        "help"
    } else if same_text(name, "pin") {
        "pin"
    } else if same_text(name, "person") {
        "person"
    } else {
        "custom"
    }
}

/// One row of the shape table: the handle of a loaded cursor and the name of
/// its shape.
#[derive(Debug, Clone, Copy)]
struct CachedCursor {
    handle: u64,
    name: &'static str,
}

/// The outcome of asking the system for one standard cursor: the name that
/// was asked for and the handle that came back, if any.
#[derive(Debug, Clone, Copy)]
pub struct CursorLoad {
    pub name: &'static str,
    pub handle: Option<u64>,
}

/// The rows that a list of load outcomes yields: one row for each cursor
/// that was loaded, in the order of the list, under its canonical name.
pub open spec fn cache_of(loaded: Seq<CursorLoad>) -> Seq<(u64, Seq<char>)>
    decreases loaded.len(),
{
    if loaded.len() == 0 {
        Seq::empty()
    } else {
        let front = cache_of(loaded.drop_last());
        match loaded.last().handle {
            Some(handle) => front.push((handle, canonical_shape(loaded.last().name@))),
            None => front,
        }
    }
}

/// Whether row `i` is the first row of `rows` that carries `handle`.
pub open spec fn first_row_with(rows: Seq<(u64, Seq<char>)>, handle: u64, i: int) -> bool {
    &&& 0 <= i < rows.len()
    &&& rows[i].0 == handle
    &&& forall|j: int| 0 <= j < i ==> (#[trigger] rows[j]).0 != handle
}

/// The shape name that `rows` gives for `handle`: the name in the first row
/// with that handle, or "custom" where no row has it.
pub open spec fn shape_name(rows: Seq<(u64, Seq<char>)>, handle: u64) -> Seq<char> {
    if exists|i: int| first_row_with(rows, handle, i) {
        rows[choose|i: int| first_row_with(rows, handle, i)].1
    } else {
        "custom"@
    }
}

/// The label under which a probe of the displayed cursor is reported: the
/// shape name of the handle it found, or "error" where the probe failed.
pub open spec fn probe_label(rows: Seq<(u64, Seq<char>)>, probe: Option<u64>) -> Seq<char> {
    match probe {
        Some(handle) => shape_name(rows, handle),
        None => "error"@,
    }
}

/// The table of known cursors, in the order in which they were loaded.
#[derive(Debug)]
pub struct CursorTable {
    entries: Vec<CachedCursor>,
}

impl View for CursorTable {
    type V = Seq<(u64, Seq<char>)>;

    closed spec fn view(&self) -> Seq<(u64, Seq<char>)> {
        self.entries@.map_values(|c: CachedCursor| (c.handle, c.name@))
    }
}

impl CursorTable {
    /// The table without rows: every handle is a custom shape.
    pub fn new() -> (table: Self)
        ensures
            table@ == Seq::<(u64, Seq<char>)>::empty(),
    {
        let table = CursorTable { entries: Vec::new() };
        table
    }

    /// The number of rows.
    pub fn len(&self) -> (n: usize)
        ensures
            n == self@.len(),
    {
        self.entries.len()
    }
}

/// Builds the shape table from the outcomes of loading the standard
/// cursors: a cursor that failed to load gets no row.
pub fn init_cursor_cache(loaded: &Vec<CursorLoad>) -> (table: CursorTable)
    ensures
        table@ == cache_of(loaded@),
{
    let mut cursors: Vec<CachedCursor> = Vec::new();
    let ghost rows = |c: CachedCursor| (c.handle, c.name@);
    let mut i: usize = 0;
    while i < loaded.len()
        invariant
            i <= loaded.len(),
            rows == |c: CachedCursor| (c.handle, c.name@),
            cursors@.map_values(rows) == cache_of(loaded@.take(i as int)),
        decreases loaded.len() - i,
    {
        let load = loaded[i];
        assert(loaded@.take(i + 1).drop_last() =~= loaded@.take(i as int));
        if let Some(handle) = load.handle {
            let static_name = get_cursor_type_static(load.name);
            cursors.push(CachedCursor { handle, name: static_name });
        }
        i = i + 1;
    }
    assert(loaded@.take(i as int) =~= loaded@);
    CursorTable { entries: cursors }
}

/// The shape name of the cursor with handle `cursor_handle`: that of the
/// first row with this handle, or "custom" where the table has none.
pub fn get_cached_cursor_type(cache: &CursorTable, cursor_handle: u64) -> (name: &'static str)
    ensures
        name@ == shape_name(cache@, cursor_handle),
{
    let mut i: usize = 0;
    while i < cache.entries.len()
        invariant
            i <= cache.entries.len(),
            forall|j: int| 0 <= j < i ==> (#[trigger] cache@[j]).0 != cursor_handle,
        decreases cache.entries.len() - i,
    {
        let row = cache.entries[i];
        if row.handle == cursor_handle {
            assert(first_row_with(cache@, cursor_handle, i as int));
            return row.name;
        }
        i = i + 1;
    }
    "custom"
}

/// The label for a probe of the displayed cursor: the shape name of the
/// handle that the probe found, or "error" where the probe failed.
pub fn shape_label(cache: &CursorTable, probe: Option<u64>) -> (label: String)
    ensures
        label@ == probe_label(cache@, probe),
{
    match probe {
        Some(handle) => get_cached_cursor_type(cache, handle).to_owned(),
        None => "error".to_owned(),
    }
}

} // verus!
