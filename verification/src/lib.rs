//! Verified building blocks of a network dataplane: VXLAN network identifiers,
//! VXLAN and UDP header parsing and serialisation, and the decisions that the
//! packet-processing stages take on packet metadata.

pub mod vni;
pub mod buffer;
pub mod egress;
pub mod eth;
pub mod hash;
pub mod headers;
pub mod ingress;
pub mod interface;
pub mod ip;
pub mod ipforward;
pub mod kernel;
pub mod ip_nat;
pub mod packet;
pub mod parse;
pub mod udp;
pub mod vxlan;
pub mod vlan;
pub mod pipeline;
pub mod sample_nfs;
