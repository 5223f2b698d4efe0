//! What the bridge makes of a redraw notification: the `grid_line` events
//! among its arguments.

use vstd::prelude::*;
use crate::errors::BridgeErrors;
use crate::grid_line::{GridLine, GridLineView, grid_line_result_view, spec_grid_line};
use crate::value::Value;

verus! {

/// Whether `v` names a `grid_line` event.
pub open spec fn names_grid_line(v: Value) -> bool {
    v.str_view() == Some("grid_line"@)
}

/// The event read from the argument array `arr`, whose first element names
/// a `grid_line` event: its payload is the second element.
pub open spec fn spec_event(arr: Seq<Value>) -> Result<GridLineView, BridgeErrors> {
    if arr.len() > 1 {
        spec_grid_line(arr[1])
    } else {
        Err(BridgeErrors::ConversionError)
    }
}

/// The `grid_line` events of a notification's arguments, in order. Reading
/// stops at the first argument that is not an array or is an empty array;
/// arrays that name another event are passed over.
pub open spec fn spec_grid_line_events(args: Seq<Value>) -> Seq<Result<GridLineView, BridgeErrors>>
    decreases args.len(),
{
    if args.len() == 0 {
        seq![]
    } else {
        match args[0].array_view() {
            Some(arr) => if arr.len() == 0 {
                seq![]
            } else if names_grid_line(arr[0]) {
                seq![spec_event(arr)] + spec_grid_line_events(args.drop_first())
            } else {
                spec_grid_line_events(args.drop_first())
            },
            None => seq![],
        }
    }
}

/// An argument `["grid_line", p1, ...]` is reported, in its place, as the
/// reading of `p1`, its element at index 1, whatever follows it; one with no
/// payload is reported as an error. The arguments after it are read on.
pub proof fn lemma_event_reads_first_payload(args: Seq<Value>)
    requires
        args.len() > 0,
        args[0].array_view() matches Some(arr) && arr.len() > 0 && arr[0].str_view() == Some(
            "grid_line"@,
        ),
    ensures
        ({
            let arr = args[0].array_view().unwrap();
            let events = spec_grid_line_events(args);
            &&& events.len() >= 1
            &&& arr.len() > 1 ==> events[0] == spec_grid_line(arr[1])
            &&& arr.len() == 1 ==> events[0] == Err::<GridLineView, BridgeErrors>(
                BridgeErrors::ConversionError,
            )
            &&& events.drop_first() == spec_grid_line_events(args.drop_first())
        }),
{
    let arr = args[0].array_view().unwrap();
    let rest = spec_grid_line_events(args.drop_first());
    assert((seq![spec_event(arr)] + rest).drop_first() =~= rest);
}

/// Reading stops at an argument that is not an array or is an empty array,
/// and passes over an array that does not name a `grid_line` event.
pub proof fn lemma_events_stop_and_skip(args: Seq<Value>)
    requires
        args.len() > 0,
    ensures
        (args[0].array_view() is None || args[0].array_view().unwrap().len() == 0)
            ==> spec_grid_line_events(args).len() == 0,
        (args[0].array_view() matches Some(arr) && arr.len() > 0 && arr[0].str_view() != Some(
            "grid_line"@,
        )) ==> spec_grid_line_events(args) == spec_grid_line_events(args.drop_first()),
{
}

/// Reads the `grid_line` events of a redraw notification. An event that
/// cannot be read is reported as an error in its place, so that the user
/// interface can show it.
pub fn grid_line_events(args: &Vec<Value>) -> (r: Vec<Result<GridLine, BridgeErrors>>)
    ensures
        r@.map_values(|g: Result<GridLine, BridgeErrors>| grid_line_result_view(g))
            == spec_grid_line_events(args@),
{
    let mut events: Vec<Result<GridLine, BridgeErrors>> = Vec::new();
    let grid_line_name = String::from_str("grid_line");
    let mut i: usize = 0;
    assert(args@.skip(0) =~= args@);
    loop
        invariant_except_break
            i <= args.len(),
            grid_line_name@ == "grid_line"@,
            spec_grid_line_events(args@) == events@.map_values(
                |g: Result<GridLine, BridgeErrors>| grid_line_result_view(g),
            ) + spec_grid_line_events(args@.skip(i as int)),
        ensures
            spec_grid_line_events(args@) == events@.map_values(
                |g: Result<GridLine, BridgeErrors>| grid_line_result_view(g),
            ),
        decreases args.len() - i,
    {
        if i >= args.len() {
            assert(args@.skip(i as int) =~= seq![]);
            assert(events@.map_values(|g: Result<GridLine, BridgeErrors>| grid_line_result_view(g)) + seq![]
                =~= events@.map_values(|g: Result<GridLine, BridgeErrors>| grid_line_result_view(g)));
            break;
        }
        let ghost rest = args@.skip(i as int);
        assert(rest.drop_first() =~= args@.skip(i + 1));
        let ghost before = events@.map_values(|g: Result<GridLine, BridgeErrors>| grid_line_result_view(g));
        let arr = match args[i].as_array() {
            Some(arr) => arr,
            None => {
                assert(spec_grid_line_events(rest) =~= seq![]);
                assert(before + seq![] =~= before);
                break;
            },
        };
        if arr.len() == 0 {
            assert(before + seq![] =~= before);
            break;
        }
        let is_grid_line = match arr[0].as_str() {
            Some(name) => String::from_str(name) == grid_line_name,
            None => false,
        };
        if is_grid_line {
            let event = if arr.len() > 1 {
                GridLine::try_from(&arr[1])
            } else {
                Err(BridgeErrors::ConversionError)
            };
            events.push(event);
            assert(events@.map_values(|g: Result<GridLine, BridgeErrors>| grid_line_result_view(g))
                =~= before.push(spec_event(arr@)));
            assert(before.push(spec_event(arr@)) + spec_grid_line_events(args@.skip(i + 1))
                =~= before + (seq![spec_event(arr@)] + spec_grid_line_events(args@.skip(i + 1))));
        }
        i = i + 1;
    }
    events
}

} // verus!
