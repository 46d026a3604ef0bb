//! Tools about the lights of a home: their statuses and the rooms they are
//! in. The fake tools answer from a fixed home of three lights in two rooms.

use vstd::prelude::*;

use crate::text::{clone_strings, contains_text, strings_view};
use crate::tools::{fields_view, Describe, FieldFormat, Format, ProtoToolDescribe, ToolDescription, ToolUseError};

verus! {

/// The state of a light.
#[derive(Clone, Copy, PartialEq, Eq, Structural, Debug)]
pub struct State {
    /// Is the light on?
    pub on: Option<bool>,
    /// The brightness
    pub brightness: Option<u8>,
    /// The hue
    pub hue: Option<u16>,
    /// The saturation
    pub saturation: Option<u8>,
    /// The color temperature
    pub color_temperature: Option<u16>,
}

/// A light.
pub struct Light {
    /// Its identifier
    pub id: String,
    /// Its name
    pub name: String,
    /// Its state
    pub state: State,
}

/// A room and the identifiers of its lights.
pub struct Room {
    /// The name of the room
    pub name: String,
    /// The identifiers of its lights
    pub lights: Vec<String>,
}

/// The input of the status tool.
pub struct StatusToolInput {
    /// The identifiers of the lights to get the status of; all of them when
    /// there is no filter or an empty one.
    pub light_filter: Option<Vec<String>>,
}

/// The output of the status tool.
pub struct StatusToolOutput {
    /// The lights with their status
    pub lights: Vec<Light>,
}

/// The input of the room tool.
pub struct RoomToolInput {
    /// The names of the rooms to get the lights of; all of them when the
    /// filter is empty.
    pub room_filter: Vec<String>,
}

/// The output of the room tool.
pub struct RoomToolOutput {
    /// The rooms, each with its name and the identifiers of its lights
    pub rooms: Vec<Room>,
}

/// The state of a light that is off.
pub open spec fn off_state() -> State {
    State { on: Some(false), brightness: Some(0), hue: Some(0), saturation: Some(0), color_temperature: Some(0) }
}

/// The lights of the fake home: their identifiers, names and states.
pub open spec fn fake_lights() -> Seq<(Seq<char>, Seq<char>, State)> {
    seq![
        ("1"@, "Bed"@, State { on: Some(true), brightness: Some(126), hue: Some(2456), saturation: Some(55), color_temperature: Some(2500) }),
        ("2"@, "Closet"@, off_state()),
        ("3"@, "Ceiling"@, off_state()),
    ]
}

/// Does the filter keep the light of that identifier?
pub open spec fn light_kept(filter: Option<Seq<Seq<char>>>, id: Seq<char>) -> bool {
    match filter {
        Some(f) => f.len() == 0 || f.contains(id),
        None => true,
    }
}

/// The identifiers of the filter of a status input.
pub open spec fn light_filter_view(input: StatusToolInput) -> Option<Seq<Seq<char>>> {
    match input.light_filter {
        Some(f) => Some(strings_view(f@)),
        None => None,
    }
}

/// The lights of the fake home that the filter keeps, in order.
pub open spec fn kept_lights(filter: Option<Seq<Seq<char>>>) -> Seq<(Seq<char>, Seq<char>, State)> {
    fake_lights().filter(|l: (Seq<char>, Seq<char>, State)| light_kept(filter, l.0))
}

/// The identifier, name and state of a light.
pub open spec fn light_view(l: Light) -> (Seq<char>, Seq<char>, State) {
    (l.id@, l.name@, l.state)
}

/// The rooms of the fake home: their names and the identifiers of their
/// lights.
pub open spec fn fake_rooms() -> Seq<(Seq<char>, Seq<Seq<char>>)> {
    seq![("Bedroom"@, seq!["1"@, "2"@]), ("Living room"@, seq!["3"@])]
}

/// Does the filter keep the room of that name?
pub open spec fn room_kept(filter: Seq<Seq<char>>, name: Seq<char>) -> bool {
    filter.len() == 0 || filter.contains(name)
}

/// The rooms of the fake home that the filter keeps, in order.
pub open spec fn kept_rooms(filter: Seq<Seq<char>>) -> Seq<(Seq<char>, Seq<Seq<char>>)> {
    fake_rooms().filter(|r: (Seq<char>, Seq<Seq<char>>)| room_kept(filter, r.0))
}

/// The name and the light identifiers of a room.
pub open spec fn room_view(r: Room) -> (Seq<char>, Seq<Seq<char>>) {
    (r.name@, strings_view(r.lights@))
}

fn light(id: &str, name: &str, state: State) -> (l: Light)
    ensures
        light_view(l) == (id@, name@, state),
{
    Light { id: String::from_str(id), name: String::from_str(name), state }
}

fn clone_light(l: &Light) -> (r: Light)
    ensures
        light_view(r) == light_view(*l),
{
    Light { id: l.id.clone(), name: l.name.clone(), state: l.state }
}

fn off() -> (s: State)
    ensures
        s == off_state(),
{
    State { on: Some(false), brightness: Some(0), hue: Some(0), saturation: Some(0), color_temperature: Some(0) }
}

/// A fake status tool: the statuses of the lights of the fake home.
pub struct FakeStatusTool {}

impl FakeStatusTool {
    /// Create a new fake status tool.
    pub fn new() -> (t: Self) {
        FakeStatusTool {}
    }

    /// The statuses of the lights of the fake home that the filter keeps.
    pub fn invoke_typed(&self, input: &StatusToolInput) -> (r: Result<StatusToolOutput, ToolUseError>)
        ensures
            r matches Ok(o) && o.lights@.map_values(|l: Light| light_view(l)) == kept_lights(light_filter_view(*input)),
    {
        let ghost filter = light_filter_view(*input);
        let mut all: Vec<Light> = Vec::new();
        all.push(light("1", "Bed", State {
            on: Some(true),
            brightness: Some(126),
            hue: Some(2456),
            saturation: Some(55),
            color_temperature: Some(2500),
        }));
        all.push(light("2", "Closet", off()));
        all.push(light("3", "Ceiling", off()));
        let ghost views = all@.map_values(|l: Light| light_view(l));
        assert(views =~= fake_lights());
        let mut lights: Vec<Light> = Vec::new();
        let ghost spec_filter = |l: (Seq<char>, Seq<char>, State)| light_kept(filter, l.0);
        proof {
            reveal(Seq::filter);
            assert(views.take(0) =~= Seq::<(Seq<char>, Seq<char>, State)>::empty());
        }
        for i in 0..all.len()
            invariant
                views == all@.map_values(|l: Light| light_view(l)),
                lights@.map_values(|l: Light| light_view(l)) == views.take(i as int).filter(spec_filter),
                spec_filter == (|l: (Seq<char>, Seq<char>, State)| light_kept(filter, l.0)),
                filter == light_filter_view(*input),
        {
            let l = &all[i];
            let keep = match &input.light_filter {
                Some(f) => f.len() == 0 || contains_text(f, l.id.as_str()),
                None => true,
            };
            proof {
                reveal(Seq::filter);
                assert(views.take(i + 1).drop_last() =~= views.take(i as int));
                assert(views.take(i + 1).last() == light_view(*l));
                assert(keep == spec_filter(light_view(*l)));
            }
            let ghost before = lights@;
            if keep {
                lights.push(clone_light(l));
                assert(lights@.map_values(|l: Light| light_view(l)) =~= before.map_values(|l: Light| light_view(l)).push(light_view(*l)));
            }
        }
        assert(views.take(3) =~= views);
        Ok(StatusToolOutput { lights })
    }
}

fn room(name: &str, lights: Vec<String>) -> (r: Room)
    ensures
        room_view(r) == (name@, strings_view(lights@)),
{
    Room { name: String::from_str(name), lights }
}

fn clone_room(r: &Room) -> (c: Room)
    ensures
        room_view(c) == room_view(*r),
{
    Room { name: r.name.clone(), lights: clone_strings(&r.lights) }
}

/// A fake room tool: the lights of the rooms of the fake home.
pub struct FakeRoomTool {}

impl FakeRoomTool {
    /// Create a new fake room tool.
    pub fn new() -> (t: Self) {
        FakeRoomTool {}
    }

    /// The rooms of the fake home that the filter keeps, with their lights.
    pub fn invoke_typed(&self, input: &RoomToolInput) -> (r: Result<RoomToolOutput, ToolUseError>)
        ensures
            r matches Ok(o) && o.rooms@.map_values(|r: Room| room_view(r)) == kept_rooms(strings_view(input.room_filter@)),
    {
        let ghost filter = strings_view(input.room_filter@);
        let mut bedroom_lights: Vec<String> = Vec::new();
        bedroom_lights.push(String::from_str("1"));
        bedroom_lights.push(String::from_str("2"));
        let mut living_room_lights: Vec<String> = Vec::new();
        living_room_lights.push(String::from_str("3"));
        assert(strings_view(bedroom_lights@) =~= seq!["1"@, "2"@]);
        assert(strings_view(living_room_lights@) =~= seq!["3"@]);
        let mut all: Vec<Room> = Vec::new();
        all.push(room("Bedroom", bedroom_lights));
        all.push(room("Living room", living_room_lights));
        let ghost views = all@.map_values(|r: Room| room_view(r));
        assert(views =~= fake_rooms());
        let mut rooms: Vec<Room> = Vec::new();
        let ghost spec_filter = |r: (Seq<char>, Seq<Seq<char>>)| room_kept(filter, r.0);
        proof {
            reveal(Seq::filter);
            assert(views.take(0) =~= Seq::<(Seq<char>, Seq<Seq<char>>)>::empty());
        }
        for i in 0..all.len()
            invariant
                views == all@.map_values(|r: Room| room_view(r)),
                rooms@.map_values(|r: Room| room_view(r)) == views.take(i as int).filter(spec_filter),
                spec_filter == (|r: (Seq<char>, Seq<Seq<char>>)| room_kept(filter, r.0)),
                filter == strings_view(input.room_filter@),
        {
            let r = &all[i];
            let keep = input.room_filter.len() == 0 || contains_text(&input.room_filter, r.name.as_str());
            proof {
                reveal(Seq::filter);
                assert(views.take(i + 1).drop_last() =~= views.take(i as int));
                assert(views.take(i + 1).last() == room_view(*r));
                assert(keep == spec_filter(room_view(*r)));
            }
            let ghost before = rooms@;
            if keep {
                rooms.push(clone_room(r));
                assert(rooms@.map_values(|r: Room| room_view(r)) =~= before.map_values(|r: Room| room_view(r)).push(room_view(*r)));
            }
        }
        assert(views.take(2) =~= views);
        Ok(RoomToolOutput { rooms })
    }
}

fn field(name: &str, ty: &str, description: &str) -> (f: FieldFormat)
    ensures
        f.name@ == name@,
        f.ty@ == ty@,
        !f.optional,
        f.description@ == description@,
{
    FieldFormat {
        name: String::from_str(name),
        ty: String::from_str(ty),
        optional: false,
        description: String::from_str(description),
    }
}

impl Describe for StatusToolInput {
    fn describe() -> (f: Format)
        ensures
            fields_view(f) == seq![
                ("light_filter"@, "Optional[list[str]]"@, false, "The list of Lights IDs (<string>) to get the status for, e.g.: [\"1\", \"2\"]. To get all the lights: []"@),
            ],
    {
        let mut fields: Vec<FieldFormat> = Vec::new();
        fields.push(field(
            "light_filter",
            "Optional[list[str]]",
            "The list of Lights IDs (<string>) to get the status for, e.g.: [\"1\", \"2\"]. To get all the lights: []",
        ));
        Format::from_fields(fields)
    }
}

impl Describe for StatusToolOutput {
    fn describe() -> (f: Format)
        ensures
            fields_view(f) == seq![
                ("lights"@, "list[Light]"@, false, "A list of Lights with their status. E.g.: [{\"id\": \"1\", \"name\": \"Corridor\", \"on\": True, \"brightness\": 126, \"hue\": 2456, \"saturation\": 55, \"color_temperature\": 2500}]"@),
            ],
    {
        let mut fields: Vec<FieldFormat> = Vec::new();
        fields.push(field(
            "lights",
            "list[Light]",
            "A list of Lights with their status. E.g.: [{\"id\": \"1\", \"name\": \"Corridor\", \"on\": True, \"brightness\": 126, \"hue\": 2456, \"saturation\": 55, \"color_temperature\": 2500}]",
        ));
        Format::from_fields(fields)
    }
}

impl Describe for RoomToolInput {
    fn describe() -> (f: Format)
        ensures
            fields_view(f) == seq![
                ("room_filter"@, "list[str]"@, false, "The list of Room names (<string>) to get the lights for, e.g. `room_filter: [\"Bedroom\"]`. If unsure, use `[]` to get all Rooms."@),
            ],
    {
        let mut fields: Vec<FieldFormat> = Vec::new();
        fields.push(field(
            "room_filter",
            "list[str]",
            "The list of Room names (<string>) to get the lights for, e.g. `room_filter: [\"Bedroom\"]`. If unsure, use `[]` to get all Rooms.",
        ));
        Format::from_fields(fields)
    }
}

impl Describe for RoomToolOutput {
    fn describe() -> (f: Format)
        ensures
            fields_view(f) == seq![
                ("rooms"@, "list[Room]"@, false, "A list of Rooms with a name and a list of lights (their IDs) in that room. E.g.: `[{\"name\": \"Smoking room\", \"lights\": [\"light_ID1\", ...]}, ...]`"@),
            ],
    {
        let mut fields: Vec<FieldFormat> = Vec::new();
        fields.push(field(
            "rooms",
            "list[Room]",
            "A list of Rooms with a name and a list of lights (their IDs) in that room. E.g.: `[{\"name\": \"Smoking room\", \"lights\": [\"light_ID1\", ...]}, ...]`",
        ));
        Format::from_fields(fields)
    }
}

impl ProtoToolDescribe for FakeStatusTool {
    fn description(&self) -> (d: ToolDescription)
        ensures
            d.name@ == "LightStatus"@,
            d.description@ == "A tool to use that the source of truth for the Light statuses. Use this to fetch the Light statuses"@,
    {
        ToolDescription::new(
            "LightStatus",
            "A tool to use that the source of truth for the Light statuses. Use this to fetch the Light statuses",
            StatusToolInput::describe(),
            StatusToolOutput::describe(),
        )
    }
}

impl ProtoToolDescribe for FakeRoomTool {
    fn description(&self) -> (d: ToolDescription)
        ensures
            d.name@ == "Room"@,
            d.description@ == "A fake tool to get the lights of a Room. Use this to get the lights of a Room."@,
    {
        ToolDescription::new(
            "Room",
            "A fake tool to get the lights of a Room. Use this to get the lights of a Room.",
            RoomToolInput::describe(),
            RoomToolOutput::describe(),
        )
    }
}

} // verus!
