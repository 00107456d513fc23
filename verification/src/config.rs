//! Which volumes are monitored.

use vstd::prelude::*;
use vstd::string::*;

verus! {

/// The disk-space section of the configuration.
#[derive(Clone, Debug, PartialEq, Eq)]
pub struct ConfigDiskSpace {
    pub volumes: Option<Vec<String>>,
}

/// The configuration, as far as this library reads it.
#[derive(Clone, Debug, PartialEq, Eq)]
pub struct Config {
    pub diskspace: ConfigDiskSpace,
}

impl Default for ConfigDiskSpace {
    /// No volume list.
    fn default() -> (c: ConfigDiskSpace)
        ensures
            c.volumes.is_none(),
    {
        ConfigDiskSpace { volumes: None }
    }
}

impl Default for Config {
    /// A configuration without a volume list.
    fn default() -> (c: Config)
        ensures
            c.diskspace.volumes.is_none(),
    {
        Config { diskspace: ConfigDiskSpace { volumes: None } }
    }
}

/// The identifiers in a list, each as its characters.
pub open spec fn ids_of(list: Seq<String>) -> Seq<Seq<char>> {
    list.map_values(|s: String| s@)
}

impl Config {
    /// The volumes to monitor: the configured list, or the root volume
    /// alone where none is configured.
    pub fn volumes(self) -> (list: Vec<String>)
        ensures
            ids_of(list@) == (match self.diskspace.volumes {
                Some(configured) => ids_of(configured@),
                None => seq!["/"@],
            }),
    {
        match self.diskspace.volumes {
            Some(configured) => configured,
            None => {
                let mut list: Vec<String> = Vec::new();
                list.push(String::from_str("/"));
                assert(ids_of(list@) =~= seq!["/"@]);
                list
            },
        }
    }
}

/// The fixed set of volume roots that the tray indicator watches.
pub fn tray_volumes() -> (list: Vec<String>)
    ensures
        ids_of(list@) == seq!["C:\\"@, "D:\\"@, "E:\\"@],
{
    let mut list: Vec<String> = Vec::new();
    list.push(String::from_str("C:\\"));
    list.push(String::from_str("D:\\"));
    list.push(String::from_str("E:\\"));
    assert(ids_of(list@) =~= seq!["C:\\"@, "D:\\"@, "E:\\"@]);
    list
}

} // verus!
