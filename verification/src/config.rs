//! The part of a configuration that supervision reads, and the ways in which
//! two configurations can differ.

use vstd::prelude::*;

verus! {

/// The device settings of one group that the supervisor needs.
#[derive(Clone, Copy, Debug, PartialEq, Eq, Structural)]
pub struct DeviceGroup {
    /// How many audio chunks may queue up between two threads.
    pub queuelimit: usize,
}

impl DeviceGroup {
    /// How many audio chunks may queue up between two threads.
    pub fn queuelimit(&self) -> (limit: usize)
        ensures
            limit == self.queuelimit,
    {
        self.queuelimit
    }
}

/// The device groups of a configuration, in order.
#[derive(Debug)]
pub struct Devices {
    pub groups: Vec<DeviceGroup>,
}

impl View for Devices {
    type V = Seq<DeviceGroup>;

    open spec fn view(&self) -> Seq<DeviceGroup> {
        self.groups@
    }
}

impl Devices {
    /// The number of device groups.
    pub fn len(&self) -> (n: usize)
        ensures
            n == self@.len(),
    {
        self.groups.len()
    }

    /// The device group at an index.
    pub fn group(&self, index: usize) -> (group: &DeviceGroup)
        requires
            index < self@.len(),
        ensures
            *group == self@[index as int],
    {
        &self.groups[index]
    }
}

impl Clone for Devices {
    fn clone(&self) -> (copy: Self)
        ensures
            copy@ == self@,
    {
        let mut groups: Vec<DeviceGroup> = Vec::new();
        for i in 0..self.groups.len()
            invariant
                groups@ == self.groups@.take(i as int),
        {
            groups.push(self.groups[i]);
        }
        Devices { groups }
    }
}

/// A configuration: the document that it was read from, which the processing
/// code interprets, and the device groups that it describes.
#[derive(Debug)]
pub struct Configuration {
    pub document: String,
    pub devices: Devices,
}

/// A [`Configuration`] as mathematical values.
pub struct ConfigModel {
    pub document: Seq<char>,
    pub devices: Seq<DeviceGroup>,
}

impl View for Configuration {
    type V = ConfigModel;

    open spec fn view(&self) -> ConfigModel {
        ConfigModel { document: self.document@, devices: self.devices@ }
    }
}

impl Clone for Configuration {
    fn clone(&self) -> (copy: Self)
        ensures
            copy@ == self@,
    {
        Configuration { document: self.document.clone(), devices: self.devices.clone() }
    }
}

/// How a new configuration differs from the one that is running.
#[derive(Debug)]
pub enum ConfigChange {
    /// Only parameters of the named filters, mixers and processors differ.
    FilterParameters { filters: Vec<String>, mixers: Vec<String>, processors: Vec<String> },
    /// Parameters of mixers differ.
    MixerParameters,
    /// The pipeline is built up in another way.
    Pipeline,
    /// The devices differ, so that they have to be opened anew.
    Devices,
    /// The two are alike.
    Unchanged,
}

/// A [`ConfigChange`] with its names as sequences of characters.
pub enum ChangeModel {
    FilterParameters {
        filters: Seq<Seq<char>>,
        mixers: Seq<Seq<char>>,
        processors: Seq<Seq<char>>,
    },
    MixerParameters,
    Pipeline,
    Devices,
    Unchanged,
}

/// The characters of each name in a list.
pub open spec fn names(list: Seq<String>) -> Seq<Seq<char>> {
    Seq::new(list.len(), |i: int| list[i]@)
}

impl View for ConfigChange {
    type V = ChangeModel;

    open spec fn view(&self) -> ChangeModel {
        match self {
            ConfigChange::FilterParameters { filters, mixers, processors } =>
                ChangeModel::FilterParameters {
                    filters: names(filters@),
                    mixers: names(mixers@),
                    processors: names(processors@),
                },
            ConfigChange::MixerParameters => ChangeModel::MixerParameters,
            ConfigChange::Pipeline => ChangeModel::Pipeline,
            ConfigChange::Devices => ChangeModel::Devices,
            ConfigChange::Unchanged => ChangeModel::Unchanged,
        }
    }
}

/// Copies a list of names.
fn copy_names(list: &Vec<String>) -> (copy: Vec<String>)
    ensures
        names(copy@) == names(list@),
{
    let mut copy: Vec<String> = Vec::new();
    for i in 0..list.len()
        invariant
            copy@.len() == i,
            forall|k: int| 0 <= k < i ==> (#[trigger] copy@[k])@ == list@[k]@,
    {
        copy.push(list[i].clone());
    }
    copy
}

impl Clone for ConfigChange {
    fn clone(&self) -> (copy: Self)
        ensures
            copy@ == self@,
    {
        match self {
            ConfigChange::FilterParameters { filters, mixers, processors } =>
                ConfigChange::FilterParameters {
                    filters: copy_names(filters),
                    mixers: copy_names(mixers),
                    processors: copy_names(processors),
                },
            ConfigChange::MixerParameters => ConfigChange::MixerParameters,
            ConfigChange::Pipeline => ConfigChange::Pipeline,
            ConfigChange::Devices => ConfigChange::Devices,
            ConfigChange::Unchanged => ConfigChange::Unchanged,
        }
    }
}

} // verus!
