use vstd::prelude::*;
use vstd::string::StringExecFns;
use crate::error::Error;
use crate::json::{
    array_items, array_text, find_member, lookup, missing_field, object_members, object_text,
    split_array, split_object, texts_view, write_array, write_object,
};
use crate::systeminfo::{info_of_text, info_text, SystemInfo, SystemInfoView};

verus! {

/// The measurements taken so far, in the order in which they were taken. Nothing is
/// ever taken out of it, and nothing in it is changed.
#[derive(Debug)]
pub struct SystemInfoContainer {
    data: Vec<SystemInfo>,
}

impl View for SystemInfoContainer {
    type V = Seq<SystemInfoView>;

    closed spec fn view(&self) -> Seq<SystemInfoView> {
        self.data@.map_values(|info: SystemInfo| info@)
    }
}

/// The JSON text that is written for a sequence of measurements: one object with the
/// single member `data`, an array of the measurements in their order.
pub open spec fn history_text(history: Seq<SystemInfoView>) -> Seq<char> {
    object_text(seq![("data"@, array_text(history.map_values(|info: SystemInfoView| info_text(info))))])
}

/// The measurements that the texts stand for, each for itself and in their order, or
/// `None` where one of the texts stands for none.
pub open spec fn infos_of_texts(items: Seq<Seq<char>>) -> Option<Seq<SystemInfoView>> {
    if forall|i: int| 0 <= i < items.len() ==> info_of_text(#[trigger] items[i]) is Some {
        Some(Seq::new(items.len(), |i: int| info_of_text(items[i])->Some_0))
    } else {
        None
    }
}

/// The sequence of measurements that a JSON text stands for, or `None` where it stands
/// for none: where it is not one object, where the object has no member `data`, where
/// that member is not an array, or where an element of the array is no measurement.
pub open spec fn history_of_text(text: Seq<char>) -> Option<Seq<SystemInfoView>> {
    match object_members(text) {
        None => None,
        Some(members) => match lookup(members, "data"@) {
            None => None,
            Some(data) => match array_items(data) {
                None => None,
                Some(items) => infos_of_texts(items),
            },
        },
    }
}

/// Whether a sequence of measurements is read from its own text as it was written.
pub open spec fn reads_as_written(history: Seq<SystemInfoView>) -> bool {
    history_of_text(history_text(history)) == Some(history)
}

/// Whether a measurement written alone is read from its own text as it was written,
/// and as a single measurement only: not as a sequence of any length.
pub open spec fn single_reads_as_written(info: SystemInfoView) -> bool {
    info_of_text(info_text(info)) == Some(info) && history_of_text(info_text(info)) is None
}

/// The view of a text that may be missing.
pub open spec fn text_of(text: Option<&str>) -> Option<Seq<char>> {
    match text {
        Some(t) => Some(t@),
        None => None,
    }
}

/// The text of the file after one more cycle: `existing` is the text of the file before
/// it, or `None` where there was no file, and `info` is the measurement taken. `None`
/// where the file held no sequence of measurements: then nothing is written.
pub open spec fn cycle(existing: Option<Seq<char>>, info: SystemInfoView) -> Option<Seq<char>> {
    match existing {
        None => Some(history_text(seq![info])),
        Some(text) => match history_of_text(text) {
            Some(history) => Some(history_text(history.push(info))),
            None => None,
        },
    }
}

impl SystemInfoContainer {
    /// A sequence without measurements.
    pub fn new() -> (container: Self)
        ensures
            container@ == Seq::<SystemInfoView>::empty(),
    {
        let container = Self { data: Vec::new() };
        proof {
            assert(container@ =~= Seq::<SystemInfoView>::empty());
        }
        container
    }

    /// Puts a copy of the measurement at the end of the sequence. What was there stays,
    /// in its order.
    pub fn push(&mut self, system_info: &SystemInfo)
        ensures
            final(self)@ == old(self)@.push(system_info@),
    {
        self.data.push(system_info.clone());
        proof {
            assert(self@ =~= old(self)@.push(system_info@));
        }
    }

    /// Reads a sequence of measurements from the text of a file. Text that stands for
    /// no such sequence gives a `Serde` error, never a sequence.
    pub fn load(contents: &str) -> (loaded: Result<Self, Error>)
        ensures
            match history_of_text(contents@) {
                Some(history) => loaded is Ok && loaded->Ok_0@ == history,
                None => loaded is Err && loaded->Err_0 is Serde,
            },
    {
        let members = match split_object(contents) {
            Ok(members) => members,
            Err(error) => return Err(Error::Serde(error)),
        };
        let data = match find_member(&members, "data") {
            Some(data) => data,
            None => return Err(Error::Serde(missing_field("data"))),
        };
        let items = match split_array(data.as_str()) {
            Ok(items) => items,
            Err(error) => return Err(Error::Serde(error)),
        };
        let mut infos: Vec<SystemInfo> = Vec::new();
        let mut i: usize = 0;
        while i < items.len()
            invariant
                i <= items.len(),
                infos@.len() == i,
                history_of_text(contents@) == infos_of_texts(texts_view(items@)),
                forall|k: int| 0 <= k < i ==> info_of_text(#[trigger] texts_view(items@)[k]) is Some,
                forall|k: int| 0 <= k < i ==> (#[trigger] infos@[k])@ == info_of_text(texts_view(items@)[k])->Some_0,
            decreases items.len() - i,
        {
            match SystemInfo::parse(items[i].as_str()) {
                Ok(info) => infos.push(info),
                Err(error) => {
                    proof {
                        assert(info_of_text(texts_view(items@)[i as int]) is None);
                    }
                    return Err(Error::Serde(error));
                },
            }
            i += 1;
        }
        let container = Self { data: infos };
        proof {
            assert(container@ =~= infos_of_texts(texts_view(items@))->Some_0);
        }
        Ok(container)
    }

    /// The sequence to which the next measurement is added: the one that the file
    /// holds, where there is a file with the text `existing`, and an empty one where
    /// there is no file. Nothing is read where there is no file.
    pub fn open(existing: Option<&str>) -> (opened: Result<Self, Error>)
        ensures
            existing is None ==> opened is Ok && opened->Ok_0@ == Seq::<SystemInfoView>::empty(),
            existing is Some ==> match history_of_text(existing->Some_0@) {
                Some(history) => opened is Ok && opened->Ok_0@ == history,
                None => opened is Err && opened->Err_0 is Serde,
            },
    {
        match existing {
            Some(contents) => Self::load(contents),
            None => Ok(Self::new()),
        }
    }

    /// One cycle of the file: reads the sequence that the file holds, or takes an empty
    /// one where there is no file, adds the measurement at its end, and writes the
    /// whole. Where the file holds no sequence the cycle fails and nothing is written.
    pub fn record(existing: Option<&str>, system_info: &SystemInfo) -> (written: Result<String, Error>)
        ensures
            match cycle(text_of(existing), system_info@) {
                Some(text) => written is Ok && written->Ok_0@ == text,
                None => written is Err && written->Err_0 is Serde,
            },
    {
        let mut container = match Self::open(existing) {
            Ok(container) => container,
            Err(error) => return Err(error),
        };
        container.push(system_info);
        proof {
            assert(Seq::<SystemInfoView>::empty().push(system_info@) =~= seq![system_info@]);
        }
        Ok(container.save())
    }

    /// How many measurements the sequence holds.
    pub fn len(&self) -> (len: usize)
        ensures
            len == self@.len(),
    {
        self.data.len()
    }

    /// The measurement at the place `index`, counted from the oldest.
    pub fn get(&self, index: usize) -> (info: Option<&SystemInfo>)
        ensures
            index < self@.len() ==> info is Some && info->Some_0@ == self@[index as int],
            index >= self@.len() ==> info is None,
    {
        if index < self.data.len() {
            Some(&self.data[index])
        } else {
            None
        }
    }

    /// Writes the whole sequence, as one JSON object with the single member `data`: the
    /// text that takes the place of all that the file held.
    pub fn save(&self) -> (text: String)
        ensures
            text@ == history_text(self@),
    {
        let mut items: Vec<String> = Vec::new();
        let mut i: usize = 0;
        while i < self.data.len()
            invariant
                i <= self.data.len(),
                items@.len() == i,
                forall|k: int| 0 <= k < i ==> (#[trigger] items@[k])@ == info_text(self.data@[k]@),
            decreases self.data.len() - i,
        {
            items.push(self.data[i].save());
            i += 1;
        }
        let mut members: Vec<(String, String)> = Vec::new();
        members.push((String::from_str("data"), write_array(&items)));
        proof {
            assert(texts_view(items@) =~= self@.map_values(|info: SystemInfoView| info_text(info)));
            assert(crate::json::members_view(members@) =~= seq![
                ("data"@, array_text(self@.map_values(|info: SystemInfoView| info_text(info)))),
            ]);
        }
        write_object(&members)
    }
}


impl Clone for SystemInfoContainer {
    fn clone(&self) -> (copy: Self)
        ensures
            copy@ == self@,
    {
        let mut data: Vec<SystemInfo> = Vec::new();
        let mut i: usize = 0;
        while i < self.data.len()
            invariant
                i <= self.data.len(),
                data@.len() == i,
                forall|k: int| 0 <= k < i ==> (#[trigger] data@[k])@ == self.data@[k]@,
            decreases self.data.len() - i,
        {
            data.push(self.data[i].clone());
            i += 1;
        }
        let copy = Self { data };
        proof {
            assert(copy@ =~= self@);
        }
        copy
    }
}

impl SystemInfoContainer {
    /// Whether the two sequences hold the same measurements, in the same order.
    pub fn same_as(&self, other: &SystemInfoContainer) -> (same: bool)
        ensures
            same == (self@ == other@),
    {
        if self.data.len() != other.data.len() {
            proof {
                assert(self@.len() != other@.len());
            }
            return false;
        }
        let mut i: usize = 0;
        while i < self.data.len()
            invariant
                i <= self.data.len(),
                self.data.len() == other.data.len(),
                forall|k: int| 0 <= k < i ==> (#[trigger] self.data@[k])@ == other.data@[k]@,
            decreases self.data.len() - i,
        {
            if !self.data[i].same_as(&other.data[i]) {
                proof {
                    assert(self@[i as int] != other@[i as int]);
                }
                return false;
            }
            i += 1;
        }
        proof {
            assert(self@ =~= other@);
        }
        true
    }

    /// Writes the whole sequence as `save` does, reads the text back, and hands the
    /// text out only where it reads back as this very sequence.
    pub fn save_checked(&self) -> (text: Option<String>)
        ensures
            text is Some <==> reads_as_written(self@),
            text is Some ==> text->Some_0@ == history_text(self@),
    {
        let text = self.save();
        match Self::load(text.as_str()) {
            Ok(loaded) => if self.same_as(&loaded) {
                Some(text)
            } else {
                None
            },
            Err(_) => None,
        }
    }
}

impl SystemInfo {
    /// Writes the measurement alone as `save` does, reads the text back, and hands the
    /// text out only where it reads back as this very measurement and as no sequence
    /// of measurements.
    pub fn save_checked(&self) -> (text: Option<String>)
        ensures
            text is Some <==> single_reads_as_written(self@),
            text is Some ==> text->Some_0@ == info_text(self@),
    {
        let text = self.save();
        match SystemInfo::parse(text.as_str()) {
            Ok(parsed) => if self.same_as(&parsed) {
                match SystemInfoContainer::load(text.as_str()) {
                    Ok(_) => None,
                    Err(_) => Some(text),
                }
            } else {
                None
            },
            Err(_) => None,
        }
    }
}

} // verus!
