//! The door record.

use vstd::prelude::*;

verus! {

/// Mathematical value of a door record.
pub struct DoorModel {
    pub id: int,
    pub name: Seq<char>,
    pub compartment: Seq<char>,
    pub level: Seq<char>,
    pub building: Seq<char>,
    pub description: Seq<char>,
}

/// A physical access point under management.  Its identity is `id`.
#[derive(Debug, PartialEq, Eq)]
pub struct Door {
    pub id: i32,
    pub name: String,
    pub compartment: String,
    pub level: String,
    pub building: String,
    pub description: String,
}

impl View for Door {
    type V = DoorModel;

    open spec fn view(&self) -> DoorModel {
        DoorModel {
            id: self.id as int,
            name: self.name@,
            compartment: self.compartment@,
            level: self.level@,
            building: self.building@,
            description: self.description@,
        }
    }
}

impl Clone for Door {
    fn clone(&self) -> (copy: Self)
        ensures
            copy == *self,
    {
        Door {
            id: self.id,
            name: self.name.clone(),
            compartment: self.compartment.clone(),
            level: self.level.clone(),
            building: self.building.clone(),
            description: self.description.clone(),
        }
    }
}

impl Door {
    /// Builds a record from borrowed text.
    pub fn new(
        id: i32,
        name: &str,
        compartment: &str,
        level: &str,
        building: &str,
        description: &str,
    ) -> (door: Door)
        ensures
            door@ == (DoorModel {
                id: id as int,
                name: name@,
                compartment: compartment@,
                level: level@,
                building: building@,
                description: description@,
            }),
    {
        Door {
            id,
            name: name.to_owned(),
            compartment: compartment.to_owned(),
            level: level.to_owned(),
            building: building.to_owned(),
            description: description.to_owned(),
        }
    }
}

/// The values of a run of door records, in order.
pub open spec fn door_models(doors: Seq<Door>) -> Seq<DoorModel> {
    doors.map_values(|door: Door| door@)
}

} // verus!
