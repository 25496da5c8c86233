//! Classification of enumerated serial ports: each device the OS reports is
//! reduced to plain values and mapped to the descriptor offered for
//! selection, in the OS-reported order, with USB descriptor metadata kept
//! and every other transport yielding all-empty metadata.

use vstd::prelude::*;
use vstd::string::StringExecFns;

verus! {

/// The transport a serial device is attached through.
#[derive(Clone, Copy, PartialEq, Eq, Structural, Debug)]
pub enum TransportKind {
    Usb,
    Pci,
    Bluetooth,
    Unknown,
}

/// A port as the OS reports it, already reduced to plain values: the device
/// name, the transport, and the USB descriptor metadata where the transport
/// carries any.
pub struct DetectedPort {
    pub port_name: String,
    pub transport: TransportKind,
    pub manufacturer: Option<String>,
    pub serial_number: Option<String>,
    pub product: Option<String>,
}

/// A COM port with its metadata, as offered for selection.
#[derive(Clone)]
pub struct COMPort {
    pub path: String,
    pub manufacturer: Option<String>,
    pub serial_number: Option<String>,
    pub pnp_id: Option<String>,
    pub port_type: String,
}

/// The label shown for each transport.
pub open spec fn label_text(t: TransportKind) -> Seq<char> {
    match t {
        TransportKind::Usb => "USB"@,
        TransportKind::Pci => "PCI"@,
        TransportKind::Bluetooth => "Bluetooth"@,
        TransportKind::Unknown => "Unknown"@,
    }
}

/// Two optional strings agree in content.
pub open spec fn same_opt_text(a: Option<String>, b: Option<String>) -> bool {
    match (a, b) {
        (Option::Some(x), Option::Some(y)) => x@ == y@,
        (Option::None, Option::None) => true,
        _ => false,
    }
}

/// The descriptor a detected port maps to: the path and the transport label
/// always carry over; the metadata carries over only for a USB transport,
/// and every other transport yields all-empty metadata.
pub open spec fn describes(c: COMPort, d: DetectedPort) -> bool {
    &&& c.path@ == d.port_name@
    &&& c.port_type@ == label_text(d.transport)
    &&& if d.transport is Usb {
        &&& same_opt_text(c.manufacturer, d.manufacturer)
        &&& same_opt_text(c.serial_number, d.serial_number)
        &&& same_opt_text(c.pnp_id, d.product)
    } else {
        &&& c.manufacturer is None
        &&& c.serial_number is None
        &&& c.pnp_id is None
    }
}

/// Builds the label string of a transport.
pub fn transport_label(t: &TransportKind) -> (r: String)
    ensures
        r@ == label_text(*t),
{
    match t {
        TransportKind::Usb => String::from_str("USB"),
        TransportKind::Pci => String::from_str("PCI"),
        TransportKind::Bluetooth => String::from_str("Bluetooth"),
        TransportKind::Unknown => String::from_str("Unknown"),
    }
}

/// Maps one detected port to the descriptor offered for selection.
pub fn describe_port(d: DetectedPort) -> (r: COMPort)
    ensures
        describes(r, d),
{
    let label = transport_label(&d.transport);
    match d.transport {
        TransportKind::Usb => COMPort {
            path: d.port_name,
            manufacturer: d.manufacturer,
            serial_number: d.serial_number,
            pnp_id: d.product,
            port_type: label,
        },
        _ => COMPort {
            path: d.port_name,
            manufacturer: None,
            serial_number: None,
            pnp_id: None,
            port_type: label,
        },
    }
}

/// Maps every detected port to its descriptor. The OS-reported order is
/// preserved, nothing is sorted, filtered or de-duplicated, and zero
/// detected ports yield an empty result rather than an error.
pub fn classify_ports(detected: Vec<DetectedPort>) -> (r: Vec<COMPort>)
    ensures
        r@.len() == detected@.len(),
        forall|i: int| 0 <= i < detected@.len() ==> describes(#[trigger] r@[i], detected@[i]),
{
    let ghost all = detected@;
    let mut rest = detected;
    let mut out: Vec<COMPort> = Vec::new();
    while rest.len() > 0
        invariant
            out@.len() + rest@.len() == all.len(),
            rest@ == all.subrange(out@.len() as int, all.len() as int),
            forall|i: int| 0 <= i < out@.len() ==> describes(#[trigger] out@[i], all[i]),
        decreases rest@.len(),
    {
        let ghost done = out@.len() as int;
        let d = rest.remove(0);
        assert(d == all[done]);
        out.push(describe_port(d));
        assert(rest@ =~= all.subrange(out@.len() as int, all.len() as int));
    }
    out
}

} // verus!
