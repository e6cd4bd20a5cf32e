//! The description of a Bob storage cluster: its nodes with their disks,
//! and the virtual disks replicated over them.
use vstd::prelude::*;

use std::collections::BTreeMap;

verus! {

/// `http::Uri`, a parsed URI; opaque.
#[verifier::external_type_specification]
#[verifier::external_body]
pub struct ExUri(http::Uri);

/// Why a cluster description could not be had.
#[derive(Clone, Copy, Debug, PartialEq, Eq, Structural)]
pub enum BobClusterError {
    /// The configuration file could not be opened.
    OpenConfigError,
    /// The configuration could not be read.
    ReadConfigError,
}

/// The address of a node.
#[derive(Debug, PartialEq, Eq)]
pub struct NodeUri(http::Uri);

impl NodeUri {
    pub fn new(raw_value: http::Uri) -> (res: Self)
        ensures
            res.inner() == raw_value,
    {
        NodeUri(raw_value)
    }

    pub closed spec fn inner(&self) -> http::Uri {
        self.0
    }

    pub fn into_inner(self) -> (res: http::Uri)
        ensures
            res == self.inner(),
    {
        self.0
    }
}

impl std::ops::Deref for NodeUri {
    type Target = http::Uri;

    fn deref(&self) -> (res: &http::Uri)
        ensures
            *res == self.inner(),
    {
        &self.0
    }
}

#[derive(Clone, Copy, Debug, PartialEq, Eq, PartialOrd, Ord, Hash)]
pub struct VDiskId(pub u64);

#[derive(Clone, Debug, PartialEq, Eq, PartialOrd, Ord, Hash)]
pub struct BobName(pub String);

#[derive(Clone, Debug, PartialEq, Eq, PartialOrd, Ord, Hash)]
pub struct DiskName(pub String);

#[derive(Clone, Debug, PartialEq, Eq, PartialOrd, Ord, Hash)]
pub struct DiskPath(pub String);

/// A node of the cluster: its name, its address and its physical disks.
#[derive(Debug)]
pub struct BobNode {
    pub name: BobName,
    pub address: NodeUri,
    pub disks: BTreeMap<DiskName, DiskPath>,
}

/// Each virtual disk with, for each node that holds a replica, the disk it is on.
#[derive(Debug)]
pub struct VirtDisks(pub BTreeMap<VDiskId, BTreeMap<BobName, DiskName>>);

/// A cluster: its nodes by name, and its virtual disks.
#[derive(Debug)]
pub struct BobCluster {
    pub nodes: BTreeMap<BobName, BobNode>,
    pub vdisks: VirtDisks,
}

/// A physical disk, as a cluster file lists it.
#[derive(Clone, Debug, PartialEq, Eq)]
pub struct PhysDisksYamlRepr {
    pub name: DiskName,
    pub path: DiskPath,
}

/// A node, as a cluster file lists it.
#[derive(Debug, PartialEq, Eq)]
pub struct BobNodeYamlRepr {
    pub name: BobName,
    pub address: NodeUri,
    pub disks: Vec<PhysDisksYamlRepr>,
}

/// A replica of a virtual disk, as a cluster file lists it.
#[derive(Clone, Debug, PartialEq, Eq)]
pub struct ReplicaYamlRepr {
    pub node: BobName,
    pub disk: DiskName,
}

/// A virtual disk, as a cluster file lists it.
#[derive(Clone, Debug, PartialEq, Eq)]
pub struct VirtDiskYamlRepr {
    pub id: VDiskId,
    pub replicas: Vec<ReplicaYamlRepr>,
}

/// A cluster, as a cluster file lists it.
#[derive(Debug, PartialEq, Eq)]
pub struct BobClusterYamlRepr {
    pub nodes: Vec<BobNodeYamlRepr>,
    pub vdisks: Vec<VirtDiskYamlRepr>,
}

} // verus!
