//! The house tree — rooms holding devices in insertion order — and the
//! report engine that walks it with a device information provider.

use vstd::prelude::*;

use crate::device_info::{DeviceInfoError, DeviceInfoProvider};
use crate::devices::Device;
use crate::text::str_eq;

verus! {

/// A room: a name and the devices it holds, in insertion order.
pub struct Room {
    pub name: String,
    pub devices: Vec<Device>,
}

/// What remains of `devs` after removing every device with the given
/// name, keeping the order of the rest.
pub open spec fn without_device(devs: Seq<Device>, name: Seq<char>) -> Seq<Device>
    decreases devs.len(),
{
    if devs.len() == 0 {
        devs
    } else if devs[0].name_spec() == name {
        without_device(devs.drop_first(), name)
    } else {
        seq![devs[0]] + without_device(devs.drop_first(), name)
    }
}

impl Room {
    pub fn new(name: &str, devices: Vec<Device>) -> (r: Self)
        ensures
            r.name@ == name@,
            r.devices == devices,
    {
        Room { name: name.to_owned(), devices }
    }

    /// Appends a device, keeping the stored order.
    pub fn add_device(&mut self, device: Device)
        ensures
            final(self).name == old(self).name,
            final(self).devices@ == old(self).devices@.push(device),
    {
        self.devices.push(device);
    }

    /// Removes every device with the given name, keeping the order of
    /// the rest.
    pub fn remove_device(&mut self, device_name: &str)
        ensures
            final(self).name == old(self).name,
            final(self).devices@ == without_device(old(self).devices@, device_name@),
    {
        let mut i: usize = 0;
        proof {
            assert(self.devices@.skip(0) =~= self.devices@);
            assert(self.devices@.subrange(0, 0) =~= Seq::<Device>::empty());
        }
        while i < self.devices.len()
            invariant
                0 <= i <= self.devices@.len(),
                self.name == old(self).name,
                without_device(old(self).devices@, device_name@) == self.devices@.subrange(
                    0,
                    i as int,
                ) + without_device(self.devices@.skip(i as int), device_name@),
            decreases self.devices@.len() - i,
        {
            let ghost pre = self.devices@;
            if str_eq(self.devices[i].name().as_str(), device_name) {
                self.devices.remove(i);
                proof {
                    assert(pre.skip(i as int).drop_first() =~= pre.skip(i + 1));
                    assert(self.devices@.subrange(0, i as int) =~= pre.subrange(0, i as int));
                    assert(self.devices@.skip(i as int) =~= pre.skip(i + 1));
                }
            } else {
                proof {
                    assert(pre.skip(i as int).drop_first() =~= pre.skip(i + 1));
                    assert(seq![pre.skip(i as int)[0]] + pre.skip(i + 1) =~= pre.skip(
                        i as int,
                    ));
                    assert(pre.subrange(0, i as int).push(pre[i as int]) =~= pre.subrange(
                        0,
                        i + 1,
                    ));
                    assert(pre.subrange(0, i as int) + without_device(
                        pre.skip(i as int),
                        device_name@,
                    ) =~= pre.subrange(0, i + 1) + without_device(pre.skip(i + 1), device_name@));
                }
                i += 1;
            }
        }
        proof {
            assert(self.devices@.subrange(0, self.devices@.len() as int) =~= self.devices@);
            assert(self.devices@ + without_device(
                self.devices@.skip(self.devices@.len() as int),
                device_name@,
            ) =~= self.devices@);
        }
    }

    /// The devices' names, in stored order.
    pub fn list_devices(&self) -> (names: Vec<&str>)
        ensures
            names@.len() == self.devices@.len(),
            forall|k: int| 0 <= k < names@.len() ==> names@[k]@ == self.devices@[k].name_spec(),
    {
        let mut names: Vec<&str> = Vec::new();
        let mut i: usize = 0;
        while i < self.devices.len()
            invariant
                0 <= i <= self.devices@.len(),
                names@.len() == i,
                forall|k: int| 0 <= k < i ==> names@[k]@ == self.devices@[k].name_spec(),
            decreases self.devices@.len() - i,
        {
            names.push(self.devices[i].name().as_str());
            i += 1;
        }
        names
    }
}

/// The house: a name and its rooms, in insertion order.
pub struct SmartHouse {
    pub name: String,
    pub rooms: Vec<Room>,
}

/// What remains of `rooms` after removing every room with the given
/// name, keeping the order of the rest.
pub open spec fn without_room(rooms: Seq<Room>, name: Seq<char>) -> Seq<Room>
    decreases rooms.len(),
{
    if rooms.len() == 0 {
        rooms
    } else if rooms[0].name@ == name {
        without_room(rooms.drop_first(), name)
    } else {
        seq![rooms[0]] + without_room(rooms.drop_first(), name)
    }
}

/// The position of the first room with the given name, if any.
pub open spec fn first_room_index(rooms: Seq<Room>, name: Seq<char>) -> Option<int>
    decreases rooms.len(),
{
    if rooms.len() == 0 {
        None
    } else if rooms[0].name@ == name {
        Some(0)
    } else {
        match first_room_index(rooms.drop_first(), name) {
            None => None,
            Some(k) => Some(k + 1),
        }
    }
}

/// The first room with the given name, if any.
pub open spec fn first_room_with(rooms: Seq<Room>, name: Seq<char>) -> Option<Room>
    decreases rooms.len(),
{
    if rooms.len() == 0 {
        None
    } else if rooms[0].name@ == name {
        Some(rooms[0])
    } else {
        first_room_with(rooms.drop_first(), name)
    }
}

proof fn lemma_first_room_index_found(rooms: Seq<Room>, name: Seq<char>, i: int)
    requires
        0 <= i <= rooms.len(),
        forall|j: int| 0 <= j < i ==> rooms[j].name@ != name,
        i < rooms.len() ==> rooms[i].name@ == name,
    ensures
        i == rooms.len() ==> first_room_index(rooms, name) is None,
        i < rooms.len() ==> first_room_index(rooms, name) == Some(i),
    decreases rooms.len(),
{
    if rooms.len() == 0 {
    } else if rooms[0].name@ == name {
    } else {
        lemma_first_room_index_found(rooms.drop_first(), name, i - 1);
    }
}

/// How an unresolvable device is rendered inline in its report line.
pub open spec fn info_error_seq(e: DeviceInfoError) -> Seq<char> {
    match e {
        DeviceInfoError::NotFound => "Error: NotFound"@,
    }
}

/// One report line: the room, the device, and what the provider
/// resolved the device to (or the inline error marker).
pub open spec fn report_line_seq<P: DeviceInfoProvider>(
    p: P,
    room: Seq<char>,
    dev: Seq<char>,
) -> Seq<char> {
    "Room: "@ + room + ", Device: "@ + dev + ", Info: "@ + (match p.resolve_spec(room, dev) {
        Ok(s) => s,
        Err(e) => info_error_seq(e),
    }) + "\n"@
}

/// The lines of one room's devices, in stored order.
pub open spec fn devices_report_seq<P: DeviceInfoProvider>(
    p: P,
    room: Seq<char>,
    devs: Seq<Device>,
) -> Seq<char>
    decreases devs.len(),
{
    if devs.len() == 0 {
        Seq::empty()
    } else {
        devices_report_seq(p, room, devs.drop_last()) + report_line_seq(
            p,
            room,
            devs.last().name_spec(),
        )
    }
}

/// The report over the rooms, in stored order.
pub open spec fn rooms_report_seq<P: DeviceInfoProvider>(p: P, rooms: Seq<Room>) -> Seq<char>
    decreases rooms.len(),
{
    if rooms.len() == 0 {
        Seq::empty()
    } else {
        rooms_report_seq(p, rooms.drop_last()) + devices_report_seq(
            p,
            rooms.last().name@,
            rooms.last().devices@,
        )
    }
}

/// The whole report of a house under a provider.
pub open spec fn report_seq<P: DeviceInfoProvider>(house: SmartHouse, p: P) -> Seq<char> {
    rooms_report_seq(p, house.rooms@)
}

impl SmartHouse {
    pub fn new(name: &str, rooms: Vec<Room>) -> (h: Self)
        ensures
            h.name@ == name@,
            h.rooms == rooms,
    {
        SmartHouse { name: name.to_owned(), rooms }
    }

    /// Appends a room, keeping the stored order.
    pub fn add_room(&mut self, room: Room)
        ensures
            final(self).name == old(self).name,
            final(self).rooms@ == old(self).rooms@.push(room),
    {
        self.rooms.push(room);
    }

    /// Removes every room with the given name, keeping the order of the
    /// rest.
    pub fn remove_room(&mut self, room_name: &str)
        ensures
            final(self).name == old(self).name,
            final(self).rooms@ == without_room(old(self).rooms@, room_name@),
    {
        let mut i: usize = 0;
        proof {
            assert(self.rooms@.skip(0) =~= self.rooms@);
            assert(self.rooms@.subrange(0, 0) =~= Seq::<Room>::empty());
        }
        while i < self.rooms.len()
            invariant
                0 <= i <= self.rooms@.len(),
                self.name == old(self).name,
                without_room(old(self).rooms@, room_name@) == self.rooms@.subrange(0, i as int)
                    + without_room(self.rooms@.skip(i as int), room_name@),
            decreases self.rooms@.len() - i,
        {
            let ghost pre = self.rooms@;
            if str_eq(self.rooms[i].name.as_str(), room_name) {
                self.rooms.remove(i);
                proof {
                    assert(pre.skip(i as int).drop_first() =~= pre.skip(i + 1));
                    assert(self.rooms@.subrange(0, i as int) =~= pre.subrange(0, i as int));
                    assert(self.rooms@.skip(i as int) =~= pre.skip(i + 1));
                }
            } else {
                proof {
                    assert(pre.skip(i as int).drop_first() =~= pre.skip(i + 1));
                    assert(seq![pre.skip(i as int)[0]] + pre.skip(i + 1) =~= pre.skip(
                        i as int,
                    ));
                    assert(pre.subrange(0, i as int) + without_room(
                        pre.skip(i as int),
                        room_name@,
                    ) =~= pre.subrange(0, i + 1) + without_room(pre.skip(i + 1), room_name@));
                }
                i += 1;
            }
        }
        proof {
            assert(self.rooms@.subrange(0, self.rooms@.len() as int) =~= self.rooms@);
            assert(self.rooms@ + without_room(
                self.rooms@.skip(self.rooms@.len() as int),
                room_name@,
            ) =~= self.rooms@);
        }
    }

    /// The rooms' names, in stored order.
    pub fn list_rooms(&self) -> (names: Vec<&str>)
        ensures
            names@.len() == self.rooms@.len(),
            forall|k: int| 0 <= k < names@.len() ==> names@[k]@ == self.rooms@[k].name@,
    {
        let mut names: Vec<&str> = Vec::new();
        let mut i: usize = 0;
        while i < self.rooms.len()
            invariant
                0 <= i <= self.rooms@.len(),
                names@.len() == i,
                forall|k: int| 0 <= k < i ==> names@[k]@ == self.rooms@[k].name@,
            decreases self.rooms@.len() - i,
        {
            names.push(self.rooms[i].name.as_str());
            i += 1;
        }
        names
    }

    /// The rooms' names as owned strings, in stored order.
    pub fn get_rooms(&self) -> (names: Vec<String>)
        ensures
            names@.len() == self.rooms@.len(),
            forall|k: int| 0 <= k < names@.len() ==> names@[k]@ == self.rooms@[k].name@,
    {
        let mut names: Vec<String> = Vec::new();
        let mut i: usize = 0;
        while i < self.rooms.len()
            invariant
                0 <= i <= self.rooms@.len(),
                names@.len() == i,
                forall|k: int| 0 <= k < i ==> names@[k]@ == self.rooms@[k].name@,
            decreases self.rooms@.len() - i,
        {
            names.push(self.rooms[i].name.clone());
            i += 1;
        }
        names
    }

    /// Walks the rooms in stored order and, within each room, the
    /// devices in stored order, resolving every device through the
    /// provider; one line per device, and a resolution failure is
    /// rendered inline without aborting the walk.
    #[verifier::rlimit(50)]
    pub fn create_report<P: DeviceInfoProvider>(&self, provider: &P) -> (report: String)
        ensures
            report@ == report_seq(*self, *provider),
    {
        let mut report = String::new();
        let mut i: usize = 0;
        while i < self.rooms.len()
            invariant
                0 <= i <= self.rooms@.len(),
                report@ == rooms_report_seq(*provider, self.rooms@.take(i as int)),
            decreases self.rooms@.len() - i,
        {
            let room = &self.rooms[i];
            let mut j: usize = 0;
            while j < room.devices.len()
                invariant
                    0 <= j <= room.devices@.len(),
                    0 <= i < self.rooms@.len(),
                    *room == self.rooms@[i as int],
                    report@ == rooms_report_seq(*provider, self.rooms@.take(i as int))
                        + devices_report_seq(*provider, room.name@, room.devices@.take(j as int)),
                decreases room.devices@.len() - j,
            {
                let dev = &room.devices[j];
                let dname = dev.name();
                report.append("Room: ");
                report.append(room.name.as_str());
                report.append(", Device: ");
                report.append(dname.as_str());
                report.append(", Info: ");
                let resolved = provider.device_info(room.name.as_str(), dname.as_str());
                match resolved {
                    Ok(info) => report.append(info.as_str()),
                    Err(DeviceInfoError::NotFound) => report.append("Error: NotFound"),
                }
                report.append("\n");
                proof {
                    assert(room.devices@.take(j + 1).drop_last() =~= room.devices@.take(
                        j as int,
                    ));
                    assert(report@ =~= rooms_report_seq(*provider, self.rooms@.take(i as int))
                        + devices_report_seq(
                        *provider,
                        room.name@,
                        room.devices@.take(j + 1),
                    ));
                }
                j += 1;
            }
            proof {
                assert(room.devices@.take(room.devices@.len() as int) =~= room.devices@);
                assert(self.rooms@.take(i + 1).drop_last() =~= self.rooms@.take(i as int));
            }
            i += 1;
        }
        proof {
            assert(self.rooms@.take(self.rooms@.len() as int) =~= self.rooms@);
        }
        report
    }

    /// Mutable access to the first room with the given name. The house
    /// afterwards differs from the house before only at that room, by
    /// whatever the caller wrote through the returned reference.
    pub fn get_room_mut(&mut self, room_name: &str) -> (r: Option<&mut Room>)
        ensures
            (match r {
                None => {
                    &&& first_room_index(old(self).rooms@, room_name@) is None
                    &&& final(self).name == old(self).name
                    &&& final(self).rooms@ == old(self).rooms@
                },
                Some(room) => {
                    &&& first_room_index(old(self).rooms@, room_name@) matches Some(k)
                        && *room == old(self).rooms@[k] && final(self).rooms@ == old(
                        self,
                    ).rooms@.update(k, *final(room))
                    &&& final(self).name == old(self).name
                },
            }),
    {
        let mut i: usize = 0;
        while i < self.rooms.len()
            invariant
                0 <= i <= self.rooms@.len(),
                self.name == old(self).name,
                self.rooms@ == old(self).rooms@,
                forall|j: int| 0 <= j < i ==> self.rooms@[j].name@ != room_name@,
            decreases self.rooms@.len() - i,
        {
            if str_eq(self.rooms[i].name.as_str(), room_name) {
                proof {
                    lemma_first_room_index_found(self.rooms@, room_name@, i as int);
                }
                return Some(&mut self.rooms[i]);
            }
            i += 1;
        }
        proof {
            lemma_first_room_index_found(self.rooms@, room_name@, self.rooms@.len() as int);
        }
        None
    }

    /// The names of the devices in the first room with the given name,
    /// or `None` when no room has it.
    pub fn devices(&self, room_name: &str) -> (r: Option<Vec<String>>)
        ensures
            (match r {
                None => first_room_with(self.rooms@, room_name@) is None,
                Some(names) => {
                    &&& first_room_with(self.rooms@, room_name@) matches Some(rm)
                    &&& names@.len() == rm.devices@.len()
                    &&& forall|k: int|
                        0 <= k < names@.len() ==> names@[k]@ == rm.devices@[k].name_spec()
                },
            }),
    {
        let mut i: usize = 0;
        proof {
            assert(self.rooms@.skip(0) =~= self.rooms@);
        }
        while i < self.rooms.len()
            invariant
                0 <= i <= self.rooms@.len(),
                first_room_with(self.rooms@, room_name@) == first_room_with(
                    self.rooms@.skip(i as int),
                    room_name@,
                ),
            decreases self.rooms@.len() - i,
        {
            if str_eq(self.rooms[i].name.as_str(), room_name) {
                let room = &self.rooms[i];
                let mut names: Vec<String> = Vec::new();
                let mut j: usize = 0;
                while j < room.devices.len()
                    invariant
                        0 <= j <= room.devices@.len(),
                        names@.len() == j,
                        forall|k: int| 0 <= k < j ==> names@[k]@ == room.devices@[k].name_spec(),
                    decreases room.devices@.len() - j,
                {
                    names.push(room.devices[j].name().clone());
                    j += 1;
                }
                return Some(names);
            }
            proof {
                assert(self.rooms@.skip(i as int).drop_first() =~= self.rooms@.skip(i + 1));
            }
            i += 1;
        }
        None
    }
}

/// No newline occurs in the sequence.
pub open spec fn newline_free(s: Seq<char>) -> bool {
    forall|i: int| 0 <= i < s.len() ==> s[i] != '\n'
}

/// The number of newline characters; since every report line ends with
/// exactly one, this is the report's line count.
pub open spec fn newline_count(s: Seq<char>) -> nat
    decreases s.len(),
{
    if s.len() == 0 {
        0
    } else {
        newline_count(s.drop_last()) + (if s.last() == '\n' {
            1nat
        } else {
            0nat
        })
    }
}

/// The total number of devices across all rooms.
pub open spec fn device_count(rooms: Seq<Room>) -> nat
    decreases rooms.len(),
{
    if rooms.len() == 0 {
        0
    } else {
        device_count(rooms.drop_last()) + rooms.last().devices@.len()
    }
}

proof fn lemma_newline_count_add(a: Seq<char>, b: Seq<char>)
    ensures
        newline_count(a + b) == newline_count(a) + newline_count(b),
    decreases b.len(),
{
    if b.len() == 0 {
        assert(a + b =~= a);
    } else {
        assert((a + b).drop_last() =~= a + b.drop_last());
        lemma_newline_count_add(a, b.drop_last());
    }
}

proof fn lemma_newline_free_count(s: Seq<char>)
    requires
        newline_free(s),
    ensures
        newline_count(s) == 0,
    decreases s.len(),
{
    if s.len() > 0 {
        assert(newline_free(s.drop_last()));
        lemma_newline_free_count(s.drop_last());
    }
}

proof fn lemma_line_newline_count<P: DeviceInfoProvider>(p: P, room: Seq<char>, dev: Seq<char>)
    requires
        newline_free(room),
        newline_free(dev),
        (match p.resolve_spec(room, dev) {
            Ok(s) => newline_free(s),
            Err(_) => true,
        }),
    ensures
        newline_count(report_line_seq(p, room, dev)) == 1,
{
    reveal_strlit("Room: ");
    reveal_strlit(", Device: ");
    reveal_strlit(", Info: ");
    reveal_strlit("Error: NotFound");
    reveal_strlit("\n");
    let info = match p.resolve_spec(room, dev) {
        Ok(s) => s,
        Err(e) => info_error_seq(e),
    };
    assert(newline_free("Room: "@));
    assert(newline_free(", Device: "@));
    assert(newline_free(", Info: "@));
    assert(newline_free("Error: NotFound"@));
    lemma_newline_free_count("Room: "@);
    lemma_newline_free_count(room);
    lemma_newline_free_count(", Device: "@);
    lemma_newline_free_count(dev);
    lemma_newline_free_count(", Info: "@);
    lemma_newline_free_count(info);
    assert("\n"@.drop_last() =~= Seq::<char>::empty());
    assert(newline_count(Seq::<char>::empty()) == 0);
    assert(newline_count("\n"@) == 1);
    lemma_newline_count_add("Room: "@, room);
    lemma_newline_count_add("Room: "@ + room, ", Device: "@);
    lemma_newline_count_add("Room: "@ + room + ", Device: "@, dev);
    lemma_newline_count_add("Room: "@ + room + ", Device: "@ + dev, ", Info: "@);
    lemma_newline_count_add("Room: "@ + room + ", Device: "@ + dev + ", Info: "@, info);
    lemma_newline_count_add(
        "Room: "@ + room + ", Device: "@ + dev + ", Info: "@ + info,
        "\n"@,
    );
}

proof fn lemma_devices_report_newline_count<P: DeviceInfoProvider>(
    p: P,
    room: Seq<char>,
    devs: Seq<Device>,
)
    requires
        newline_free(room),
        forall|d: int| 0 <= d < devs.len() ==> newline_free(#[trigger] devs[d].name_spec()),
        forall|rm: Seq<char>, dv: Seq<char>|
            match #[trigger] p.resolve_spec(rm, dv) {
                Ok(s) => newline_free(s),
                Err(_) => true,
            },
    ensures
        newline_count(devices_report_seq(p, room, devs)) == devs.len(),
    decreases devs.len(),
{
    if devs.len() > 0 {
        lemma_devices_report_newline_count(p, room, devs.drop_last());
        lemma_line_newline_count(p, room, devs.last().name_spec());
        lemma_newline_count_add(
            devices_report_seq(p, room, devs.drop_last()),
            report_line_seq(p, room, devs.last().name_spec()),
        );
    }
}

proof fn lemma_rooms_report_newline_count<P: DeviceInfoProvider>(p: P, rooms: Seq<Room>)
    requires
        forall|r: int| 0 <= r < rooms.len() ==> newline_free(#[trigger] rooms[r].name@),
        forall|r: int, d: int|
            0 <= r < rooms.len() && 0 <= d < rooms[r].devices@.len() ==> newline_free(
                #[trigger] rooms[r].devices@[d].name_spec(),
            ),
        forall|rm: Seq<char>, dv: Seq<char>|
            match #[trigger] p.resolve_spec(rm, dv) {
                Ok(s) => newline_free(s),
                Err(_) => true,
            },
    ensures
        newline_count(rooms_report_seq(p, rooms)) == device_count(rooms),
    decreases rooms.len(),
{
    if rooms.len() > 0 {
        lemma_rooms_report_newline_count(p, rooms.drop_last());
        lemma_devices_report_newline_count(p, rooms.last().name@, rooms.last().devices@);
        lemma_newline_count_add(
            rooms_report_seq(p, rooms.drop_last()),
            devices_report_seq(p, rooms.last().name@, rooms.last().devices@),
        );
    }
}

/// Law: the report has exactly one line per device — its newline count
/// equals the total device count across all rooms — provided no room
/// name, device name, or resolved status itself contains a newline (a
/// name holding a newline breaks the line structure, so such inputs
/// are excluded here).
pub proof fn lemma_report_line_count<P: DeviceInfoProvider>(house: SmartHouse, p: P)
    requires
        forall|r: int| 0 <= r < house.rooms@.len() ==> newline_free(#[trigger] house.rooms@[r].name@),
        forall|r: int, d: int|
            0 <= r < house.rooms@.len() && 0 <= d < house.rooms@[r].devices@.len()
                ==> newline_free(#[trigger] house.rooms@[r].devices@[d].name_spec()),
        forall|rm: Seq<char>, dv: Seq<char>|
            match #[trigger] p.resolve_spec(rm, dv) {
                Ok(s) => newline_free(s),
                Err(_) => true,
            },
    ensures
        newline_count(report_seq(house, p)) == device_count(house.rooms@),
{
    lemma_rooms_report_newline_count(p, house.rooms@);
}

/// Law: the report is a pure function of the house tree and the
/// provider's resolution behaviour, so generating it twice with both
/// unchanged yields byte-identical output.
pub proof fn lemma_report_idempotent<P: DeviceInfoProvider>(
    house: SmartHouse,
    p: P,
    first: Seq<char>,
    second: Seq<char>,
)
    requires
        first == report_seq(house, p),
        second == report_seq(house, p),
    ensures
        first == second,
{
}

} // verus!
