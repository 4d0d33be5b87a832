//! The lamp grid: a rectangle of lamps, each colored by a signal of its
//! own, and the wire mesh that joins them into one network.
use vstd::arithmetic::div_mod::{lemma_fundamental_div_mod, lemma_fundamental_div_mod_converse};
use vstd::prelude::*;
use crate::blueprint::{
    all_join_within, connection_wires, joins_within, lemma_connection_wires, ConnectionType,
    Document, DocumentView, Wire, WireColors,
};
use crate::catalog::{catalog_name, catalog_type, AppData};
use crate::consts::{quality_label, QualityType};
use crate::entity::{Entity, EntityView};
use crate::error::BluePrintError;
use crate::records::{
    ControlBehavior, ControlBehaviorView, LampBehavior, LampBehaviorView, RgbSignal,
    RgbSignalView, SignalView,
};

verus! {

/// The largest number of lamps that one grid can address.
pub const MAX_PIXELS: u64 = 2985;

/// The lamp of the cell in column `x` and row `y` of a grid `width` wide.
/// Its number is its row-major position, counted from 1; its color signal is
/// the catalog entry at a fifth of that position, at the quality tier of the
/// remainder.
pub open spec fn lamp(
    x: int,
    y: int,
    width: int,
    always_on: bool,
    catalog: Seq<SignalView>,
) -> EntityView {
    let index = y * width + x;
    EntityView {
        entity_number: Some(index + 1),
        name: Some("small-lamp"@),
        entity_type: None,
        position_x: 2 * x,
        position_y: 2 * y,
        direction: None,
        control_behavior: ControlBehaviorView::Lamp(
            LampBehaviorView {
                color_mode: 2,
                use_colors: true,
                rgb_signal: RgbSignalView {
                    name: catalog_name(catalog, index / 5),
                    quality: quality_label(index),
                    signal_type: catalog_type(catalog, index / 5),
                },
            },
        ),
        always_on: Some(always_on),
    }
}

/// The lamps of a grid, column after column, each column from its first row
/// down.
pub open spec fn grid_lamps(
    width: int,
    height: int,
    always_on: bool,
    catalog: Seq<SignalView>,
) -> Seq<EntityView> {
    Seq::new(
        (width * height) as nat,
        |i: int| lamp(i / height, i % height, width, always_on, catalog),
    )
}

/// The wires that the cell in column `x` and row `y` adds: in the last
/// column, below the first row, to the cell above it; right of the first
/// column, to its left neighbor.
pub open spec fn cell_wires(x: int, y: int, width: int, colors: WireColors) -> Seq<Wire> {
    let number = y * width + x + 1;
    (if x + 1 == width && y > 0 {
        connection_wires(
            (number - width) as i64,
            number as i64,
            ConnectionType::InputInput,
            colors,
        )
    } else {
        Seq::empty()
    }) + (if x > 0 {
        connection_wires((number - 1) as i64, number as i64, ConnectionType::InputInput, colors)
    } else {
        Seq::empty()
    })
}

/// The wires of the first `cells` cells of a grid, the cells taken column
/// after column.
pub open spec fn grid_wires_upto(cells: nat, width: int, height: int, colors: WireColors) -> Seq<
    Wire,
>
    decreases cells,
{
    if cells == 0 {
        Seq::empty()
    } else {
        grid_wires_upto((cells - 1) as nat, width, height, colors) + cell_wires(
            (cells - 1) / height,
            (cells - 1) % height,
            width,
            colors,
        )
    }
}

/// The wires of a whole grid; none where no color is asked for.
pub open spec fn grid_wires(width: int, height: int, colors: WireColors) -> Seq<Wire> {
    grid_wires_upto((width * height) as nat, width, height, colors)
}

/// The colors that a list of color codes asks for: 1 is red, 2 is green, and
/// no list asks for none.
pub open spec fn colors_of(wire_type_list: Option<Vec<i32>>) -> WireColors {
    match wire_type_list {
        Some(list) => WireColors { red: list@.contains(1i32), green: list@.contains(2i32) },
        None => WireColors { red: false, green: false },
    }
}

/// The document of a grid: its lamps and its wires, both always written
/// out.
pub open spec fn grid_document(
    width: int,
    height: int,
    colors: WireColors,
    always_on: bool,
    catalog: Seq<SignalView>,
) -> DocumentView {
    DocumentView {
        item: "blueprint"@,
        entities: Some(grid_lamps(width, height, always_on, catalog)),
        icons: None,
        label: None,
        description: None,
        version: None,
        wires: Some(grid_wires(width, height, colors)),
    }
}

/// The text of the error that a grid beyond the capacity is refused with.
pub open spec fn capacity_message() -> Seq<char> {
    "像素总和超过2985上限！"@
}

/// A cell's position, counted either way, lies within the grid.
pub proof fn lemma_cell_index(x: int, y: int, width: int, height: int)
    requires
        0 <= x < width,
        0 <= y < height,
    ensures
        0 <= y * width + x < width * height,
        0 <= x * height + y < width * height,
        (x * height + y) / height == x,
        (x * height + y) % height == y,
{
    assert(0 <= y * width && (y + 1) * width <= height * width && (y + 1) * width == y * width
        + width && height * width == width * height) by (nonlinear_arith)
        requires
            0 <= x < width,
            0 <= y < height,
    ;
    assert(0 <= x * height && (x + 1) * height <= width * height && (x + 1) * height == x
        * height + height) by (nonlinear_arith)
        requires
            0 <= x < width,
            0 <= y < height,
    ;
    lemma_fundamental_div_mod_converse(x * height + y, height, x, y);
}

/// Whether `code` occurs in the list.
pub fn list_contains(list: &Vec<i32>, code: i32) -> (found: bool)
    ensures
        found == list@.contains(code),
{
    let mut i: usize = 0;
    while i < list.len()
        invariant
            i <= list.len(),
            forall|j: int| 0 <= j < i ==> list@[j] != code,
        decreases list.len() - i,
    {
        if list[i] == code {
            return true;
        }
        i += 1;
    }
    false
}

/// The colors that a list of color codes asks for.
pub fn wire_colors(wire_type_list: &Option<Vec<i32>>) -> (colors: WireColors)
    ensures
        colors == colors_of(*wire_type_list),
{
    match wire_type_list {
        Some(list) => WireColors { red: list_contains(list, 1), green: list_contains(list, 2) },
        None => WireColors { red: false, green: false },
    }
}

/// The list of color codes for the two choices of a form: 1 where red is
/// chosen, then 2 where green is.
pub fn wire_type_list(red_line: bool, green_line: bool) -> (list: Vec<i32>)
    ensures
        list@ == (if red_line { seq![1i32] } else { Seq::empty() }) + (if green_line {
            seq![2i32]
        } else {
            Seq::empty()
        }),
        colors_of(Some(list)) == (WireColors { red: red_line, green: green_line }),
{
    let mut list: Vec<i32> = Vec::new();
    if red_line {
        list.push(1);
    }
    if green_line {
        list.push(2);
    }
    assert(list@ =~= (if red_line { seq![1i32] } else { Seq::empty() }) + (if green_line {
        seq![2i32]
    } else {
        Seq::empty()
    }));
    assert(red_line ==> list@[0] == 1i32);
    assert(green_line ==> list@[list@.len() - 1] == 2i32);
    list
}

/// What the form of a lamp grid holds.
#[derive(Debug, Clone, Copy, PartialEq, Eq, Structural)]
pub struct ScreenForm {
    pub width: u32,
    pub height: u32,
    pub red_line: bool,
    pub green_line: bool,
    pub keep_open: bool,
}

/// Builds the grid that a form asks for: its lamps stay lit where the form
/// says so, and its mesh has the colors that the form chooses.
pub fn generate_screen_bp(form: ScreenForm, state: &AppData) -> (result: Result<
    Document,
    BluePrintError,
>)
    ensures
        result.is_err() <==> form.width * form.height > MAX_PIXELS,
        result matches Err(e) ==> e.0@ == capacity_message(),
        result matches Ok(document) ==> document.deep_view() == grid_document(
            form.width as int,
            form.height as int,
            WireColors { red: form.red_line, green: form.green_line },
            form.keep_open,
            state.deep_view(),
        ),
{
    let list = wire_type_list(form.red_line, form.green_line);
    generate_screen_blueprint(form.width, form.height, Some(list), form.keep_open, state)
}

/// The lamp of one cell.
fn make_lamp(x: u32, y: u32, width: u32, always_on: bool, data: &AppData) -> (entity: Entity)
    requires
        y * width + x < MAX_PIXELS,
    ensures
        entity.deep_view() == lamp(x as int, y as int, width as int, always_on, data.deep_view()),
{
    assert(y * width <= y * width + x);
    let index: u64 = y as u64 * width as u64 + x as u64;
    Entity {
        entity_number: Some(index as i64 + 1),
        name: Some("small-lamp".to_owned()),
        entity_type: None,
        position_x: 2 * x as i64,
        position_y: 2 * y as i64,
        direction: None,
        control_behavior: ControlBehavior::Lamp(
            LampBehavior {
                color_mode: 2,
                use_colors: true,
                rgb_signal: RgbSignal {
                    name: data.signal_name(index / 5),
                    quality: QualityType::from_index(index).as_str().to_owned(),
                    signal_type: data.signal_type(index / 5),
                },
            },
        ),
        always_on: Some(always_on),
    }
}

/// Appends the wires of one connection between two lamps.
fn push_connection(wires: &mut Vec<Wire>, first: i64, second: i64, colors: WireColors)
    ensures
        final(wires)@ == old(wires)@ + connection_wires(
            first,
            second,
            ConnectionType::InputInput,
            colors,
        ),
{
    if colors.red {
        wires.push(Wire { first, first_port: 1, second, second_port: 1 });
    }
    if colors.green {
        wires.push(Wire { first, first_port: 2, second, second_port: 2 });
    }
    assert(wires@ =~= old(wires)@ + connection_wires(
        first,
        second,
        ConnectionType::InputInput,
        colors,
    ));
}

/// Builds the grid of `width` by `height` lamps and its wire mesh in the
/// colors that `wire_type_list` asks for. A grid of more than 2985 lamps is
/// refused, and nothing is built.
pub fn generate_screen_blueprint(
    width: u32,
    height: u32,
    wire_type_list: Option<Vec<i32>>,
    always_on: bool,
    data: &AppData,
) -> (result: Result<Document, BluePrintError>)
    ensures
        result.is_err() <==> width * height > MAX_PIXELS,
        result matches Err(e) ==> e.0@ == capacity_message(),
        result matches Ok(document) ==> {
            &&& document.deep_view() == grid_document(
                width as int,
                height as int,
                colors_of(wire_type_list),
                always_on,
                data.deep_view(),
            )
            &&& document.entities.unwrap().len() == width * height
        },
{
    assert(0 <= width * height <= 0xffff_ffff * 0xffff_ffff) by (nonlinear_arith)
        requires
            0 <= width <= 0xffff_ffff,
            0 <= height <= 0xffff_ffff,
    ;
    if width as u64 * height as u64 > MAX_PIXELS {
        return Err(BluePrintError("像素总和超过2985上限！".to_owned()));
    }
    let colors = wire_colors(&wire_type_list);
    let ghost catalog = data.deep_view();
    let ghost w = width as int;
    let ghost h = height as int;
    let mut entities: Vec<Entity> = Vec::new();
    let mut wires: Vec<Wire> = Vec::new();
    let mut x: u32 = 0;
    while x < width
        invariant
            x <= width,
            w == width,
            h == height,
            w * h <= MAX_PIXELS,
            catalog == data.deep_view(),
            entities.len() == x * h,
            forall|i: int|
                0 <= i < entities.len() ==> (#[trigger] entities[i]).deep_view() == lamp(
                    i / h,
                    i % h,
                    w,
                    always_on,
                    catalog,
                ),
            wires@ == grid_wires_upto((x * h) as nat, w, h, colors),
        decreases width - x,
    {
        let mut y: u32 = 0;
        while y < height
            invariant
                x < width,
                y <= height,
                w == width,
                h == height,
                w * h <= MAX_PIXELS,
                catalog == data.deep_view(),
                entities.len() == x * h + y,
                0 <= x * h,
                forall|i: int|
                    0 <= i < entities.len() ==> (#[trigger] entities[i]).deep_view() == lamp(
                        i / h,
                        i % h,
                        w,
                        always_on,
                        catalog,
                    ),
                wires@ == grid_wires_upto((x * h + y) as nat, w, h, colors),
            decreases height - y,
        {
            proof {
                lemma_cell_index(x as int, y as int, w, h);
            }
            let item = make_lamp(x, y, width, always_on, data);
            entities.push(item);
            let number: i64 = y as i64 * width as i64 + x as i64 + 1;
            if x + 1 == width && y > 0 {
                push_connection(&mut wires, number - width as i64, number, colors);
            }
            if x > 0 {
                push_connection(&mut wires, number - 1, number, colors);
            }
            assert(wires@ =~= grid_wires_upto((x * h + y + 1) as nat, w, h, colors));
            y += 1;
        }
        assert((x + 1) * h == x * h + h) by (nonlinear_arith);
        x += 1;
    }
    assert(w * h == h * w) by (nonlinear_arith);
    assert(entities.deep_view() =~= grid_lamps(w, h, always_on, catalog));
    let document = Document {
        item: "blueprint".to_owned(),
        entities: Some(entities),
        icons: None,
        label: None,
        description: None,
        version: None,
        wires: Some(wires),
    };
    Ok(document)
}

/// The lamp of cell `(x, y)` stands at place `x * height + y` of the grid's
/// lamps, carries the number `y * width + x + 1`, and takes its color from
/// catalog entry `(y * width + x) / 5` at quality tier `(y * width + x) mod 5`.
pub proof fn lemma_grid_addressing(
    width: int,
    height: int,
    x: int,
    y: int,
    always_on: bool,
    catalog: Seq<SignalView>,
)
    requires
        0 <= x < width,
        0 <= y < height,
    ensures
        0 <= x * height + y < grid_lamps(width, height, always_on, catalog).len(),
        grid_lamps(width, height, always_on, catalog)[x * height + y] == lamp(
            x,
            y,
            width,
            always_on,
            catalog,
        ),
        lamp(x, y, width, always_on, catalog).entity_number == Some(y * width + x + 1),
        lamp(x, y, width, always_on, catalog).control_behavior
            matches ControlBehaviorView::Lamp(behavior) && behavior.rgb_signal == (RgbSignalView {
            name: catalog_name(catalog, (y * width + x) / 5),
            quality: quality_label((y * width + x) % 5),
            signal_type: catalog_type(catalog, (y * width + x) / 5),
        }),
{
    lemma_cell_index(x, y, width, height);
    assert(((y * width + x) % 5) % 5 == (y * width + x) % 5);
}

/// The number of wires that the first `cells` cells of a grid add.
pub open spec fn wire_count_upto(cells: int, width: int, height: int, colors: WireColors) -> int {
    let horizontal = if cells > height { cells - height } else { 0 };
    let stitching = if cells > (width - 1) * height + 1 {
        cells - (width - 1) * height - 1
    } else {
        0
    };
    colors.count() * (horizontal + stitching)
}

/// Every cell right of the first column adds one wire of each color, and
/// so does every cell of the last column below the first row.
pub proof fn lemma_wire_count_upto(cells: nat, width: int, height: int, colors: WireColors)
    requires
        1 <= width,
        1 <= height,
        cells <= width * height,
    ensures
        grid_wires_upto(cells, width, height, colors).len() == wire_count_upto(
            cells as int,
            width,
            height,
            colors,
        ),
    decreases cells,
{
    if cells > 0 {
        let i = cells - 1;
        let x = i / height;
        let y = i % height;
        lemma_wire_count_upto(i as nat, width, height, colors);
        lemma_fundamental_div_mod(i, height);
        assert(0 <= y < height);
        assert(x >= 0 && (x > 0 <==> i >= height) && x < width && (x + 1 == width <==> i >= (width
            - 1) * height) && (i == (width - 1) * height ==> y == 0) && (x + 1 == width && y == 0
            ==> i == (width - 1) * height)) by (nonlinear_arith)
            requires
                i == height * x + y,
                0 <= y < height,
                0 <= i < width * height,
                1 <= width,
        ;
        let n = colors.count() as int;
        let horizontal_before = if i > height { i - height } else { 0 };
        let stitching_before = if i > (width - 1) * height + 1 {
            i - (width - 1) * height - 1
        } else {
            0
        };
        let horizontal = if cells > height { cells - height } else { 0 };
        let stitching = if cells > (width - 1) * height + 1 {
            cells - (width - 1) * height - 1
        } else {
            0
        };
        let added = (if x + 1 == width && y > 0 { 1int } else { 0int }) + (if x > 0 {
            1int
        } else {
            0int
        });
        assert(horizontal + stitching == horizontal_before + stitching_before + added);
        assert(cell_wires(x, y, width, colors).len() == n * added) by {
            assert(n * 0 == 0 && n * 1 == n && n * 2 == n + n);
        }
        assert(n * (horizontal + stitching) == n * (horizontal_before + stitching_before) + n
            * added) by (nonlinear_arith)
            requires
                horizontal + stitching == horizontal_before + stitching_before + added,
        ;
        assert(wire_count_upto(i, width, height, colors) == n * (horizontal_before
            + stitching_before));
        assert(wire_count_upto(cells as int, width, height, colors) == n * (horizontal
            + stitching));
        assert(grid_wires_upto(cells, width, height, colors) == grid_wires_upto(
            i as nat,
            width,
            height,
            colors,
        ) + cell_wires(x, y, width, colors));
    } else {
        assert(colors.count() * 0 == 0);
    }
}

/// A grid of at least one column and one row has, in each color asked for,
/// one wire for every pair of horizontal neighbors and one for every pair
/// of cells that the last column stitches together: with both colors, twice
/// the number of those pairs.
pub proof fn lemma_grid_wire_count(width: int, height: int, colors: WireColors)
    requires
        1 <= width,
        1 <= height,
    ensures
        grid_wires(width, height, colors).len() == colors.count() * ((width - 1) * height + (
        height - 1)),
        colors.red && colors.green ==> grid_wires(width, height, colors).len() == 2 * ((width
            - 1) * height + (height - 1)),
{
    assert(width * height >= 1 && width * height - height == (width - 1) * height && (width - 1)
        * height >= 0) by (nonlinear_arith)
        requires
            1 <= width,
            1 <= height,
    ;
    lemma_wire_count_upto((width * height) as nat, width, height, colors);
}

/// Every wire of the first `cells` cells joins two lamps of the grid.
pub proof fn lemma_wires_upto_join_lamps(cells: nat, width: int, height: int, colors: WireColors)
    requires
        1 <= width,
        1 <= height,
        cells <= width * height <= MAX_PIXELS,
    ensures
        all_join_within(grid_wires_upto(cells, width, height, colors), width * height),
    decreases cells,
{
    if cells > 0 {
        let i = cells - 1;
        let x = i / height;
        let y = i % height;
        lemma_wires_upto_join_lamps(i as nat, width, height, colors);
        lemma_fundamental_div_mod(i, height);
        assert(0 <= x < width) by (nonlinear_arith)
            requires
                i == height * x + y,
                0 <= y < height,
                0 <= i < width * height,
        ;
        assert(x * height + y == i) by (nonlinear_arith)
            requires
                i == height * x + y,
        ;
        lemma_cell_index(x, y, width, height);
        let number = y * width + x + 1;
        assert(y > 0 ==> number - width >= 1) by (nonlinear_arith)
            requires
                number == y * width + x + 1,
                0 <= x,
                1 <= width,
        ;
        let before = grid_wires_upto(i as nat, width, height, colors);
        let added = cell_wires(x, y, width, colors);
        lemma_connection_wires(
            (number - width) as i64,
            number as i64,
            ConnectionType::InputInput,
            colors,
        );
        lemma_connection_wires(
            (number - 1) as i64,
            number as i64,
            ConnectionType::InputInput,
            colors,
        );
        assert forall|k: int| 0 <= k < added.len() implies joins_within(
            #[trigger] added[k],
            width * height,
        ) by {}
        assert forall|k: int| 0 <= k < (before + added).len() implies joins_within(
            #[trigger] (before + added)[k],
            width * height,
        ) by {
            if k >= before.len() {
                assert((before + added)[k] == added[k - before.len()]);
            }
        }
    }
}

/// Every wire of a grid joins two of its lamps.
pub proof fn lemma_grid_wires_join_lamps(width: int, height: int, colors: WireColors)
    requires
        0 <= width,
        0 <= height,
        width * height <= MAX_PIXELS,
    ensures
        all_join_within(grid_wires(width, height, colors), width * height),
{
    if width >= 1 && height >= 1 {
        assert(width * height >= 0) by (nonlinear_arith)
            requires
                1 <= width,
                1 <= height,
        ;
        lemma_wires_upto_join_lamps((width * height) as nat, width, height, colors);
    } else {
        assert(width * height == 0) by (nonlinear_arith)
            requires
                width == 0 || height == 0,
        ;
    }
}

/// Two different cells of a grid have different numbers, and so their
/// lamps take their colors from different signals: a different catalog
/// entry, or the same entry at a different quality tier.
pub proof fn lemma_cells_addressed_apart(x: int, y: int, other_x: int, other_y: int, width: int)
    requires
        0 <= x < width,
        0 <= other_x < width,
        0 <= y,
        0 <= other_y,
        x != other_x || y != other_y,
    ensures
        y * width + x != other_y * width + other_x,
        (y * width + x) / 5 != (other_y * width + other_x) / 5 || (y * width + x) % 5 != (other_y
            * width + other_x) % 5,
{
    assert(y * width + x != other_y * width + other_x) by (nonlinear_arith)
        requires
            0 <= x < width,
            0 <= other_x < width,
            0 <= y,
            0 <= other_y,
            x != other_x || y != other_y,
    ;
}

} // verus!
