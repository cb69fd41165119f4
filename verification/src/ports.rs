//! The serial-port enumerator's logic: classifying each discovered device
//! into exactly one kind and listing the devices sorted ascending by name,
//! whatever order the operating system reported them in.

use vstd::prelude::*;

use crate::sorting::lemma_insert_to_multiset;
use crate::text::{lemma_lex_le_total, lemma_lex_le_transitive, lex_le, str_le};

verus! {

/// What the operating system reports about a USB-attached device. Fields
/// the system did not report stay absent; they are never turned into empty
/// strings.
#[derive(Debug, Clone)]
pub struct UsbInfo {
    pub vid: u16,
    pub pid: u16,
    pub manufacturer: Option<String>,
    pub product: Option<String>,
    pub serial_number: Option<String>,
}

/// The kind the operating system reports a serial device as, before
/// classification.
#[derive(Debug, Clone)]
pub enum PortClass {
    Usb(UsbInfo),
    Bluetooth,
    Pci,
    Unknown,
}

/// One discovered serial device, as handed in by the enumeration call.
#[derive(Debug, Clone)]
pub struct RawPort {
    pub port_name: String,
    pub class: PortClass,
}

/// The single kind tag every described device carries.
#[derive(Debug, Clone, Copy, PartialEq, Eq, Structural)]
pub enum PortKind {
    Usb,
    Bluetooth,
    Pci,
    Unknown,
}

/// A described serial device: its name, its kind, and — for USB devices —
/// whatever identification the system reported.
#[derive(Debug, Clone)]
pub struct SerialPortDescriptor {
    pub port_name: String,
    pub port_type: PortKind,
    pub manufacturer: Option<String>,
    pub product: Option<String>,
    pub serial_number: Option<String>,
    pub vid: Option<u16>,
    pub pid: Option<u16>,
}

/// How one discovered device is described: USB devices carry their
/// identification, every other kind maps to its bare tag, and a device the
/// system did not classify stays `Unknown`.
pub open spec fn spec_classify(p: RawPort) -> SerialPortDescriptor {
    match p.class {
        PortClass::Usb(u) => SerialPortDescriptor {
            port_name: p.port_name,
            port_type: PortKind::Usb,
            manufacturer: u.manufacturer,
            product: u.product,
            serial_number: u.serial_number,
            vid: Some(u.vid),
            pid: Some(u.pid),
        },
        PortClass::Bluetooth => SerialPortDescriptor {
            port_name: p.port_name,
            port_type: PortKind::Bluetooth,
            manufacturer: None,
            product: None,
            serial_number: None,
            vid: None,
            pid: None,
        },
        PortClass::Pci => SerialPortDescriptor {
            port_name: p.port_name,
            port_type: PortKind::Pci,
            manufacturer: None,
            product: None,
            serial_number: None,
            vid: None,
            pid: None,
        },
        PortClass::Unknown => SerialPortDescriptor {
            port_name: p.port_name,
            port_type: PortKind::Unknown,
            manufacturer: None,
            product: None,
            serial_number: None,
            vid: None,
            pid: None,
        },
    }
}

/// The element-wise description of a whole enumeration.
pub open spec fn classified(q: Seq<RawPort>) -> Seq<SerialPortDescriptor> {
    q.map_values(|p: RawPort| spec_classify(p))
}

/// The names of a described listing, each as its character sequence.
pub open spec fn descriptor_names(q: Seq<SerialPortDescriptor>) -> Seq<Seq<char>> {
    q.map_values(|d: SerialPortDescriptor| d.port_name@)
}

/// The names of a raw enumeration, each as its character sequence.
pub open spec fn raw_names(q: Seq<RawPort>) -> Seq<Seq<char>> {
    q.map_values(|p: RawPort| p.port_name@)
}

/// A described listing in ascending lexicographic order of device name.
pub open spec fn ports_sorted(q: Seq<SerialPortDescriptor>) -> bool {
    forall|i: int, j: int|
        0 <= i < j < q.len() ==> lex_le(#[trigger] q[i].port_name@, #[trigger] q[j].port_name@)
}

/// Describes one discovered device.
pub fn classify(p: RawPort) -> (r: SerialPortDescriptor)
    ensures
        r == spec_classify(p),
{
    match p.class {
        PortClass::Usb(u) => SerialPortDescriptor {
            port_name: p.port_name,
            port_type: PortKind::Usb,
            manufacturer: u.manufacturer,
            product: u.product,
            serial_number: u.serial_number,
            vid: Some(u.vid),
            pid: Some(u.pid),
        },
        PortClass::Bluetooth => SerialPortDescriptor {
            port_name: p.port_name,
            port_type: PortKind::Bluetooth,
            manufacturer: None,
            product: None,
            serial_number: None,
            vid: None,
            pid: None,
        },
        PortClass::Pci => SerialPortDescriptor {
            port_name: p.port_name,
            port_type: PortKind::Pci,
            manufacturer: None,
            product: None,
            serial_number: None,
            vid: None,
            pid: None,
        },
        PortClass::Unknown => SerialPortDescriptor {
            port_name: p.port_name,
            port_type: PortKind::Unknown,
            manufacturer: None,
            product: None,
            serial_number: None,
            vid: None,
            pid: None,
        },
    }
}

/// Sorts described devices into ascending order of name. No descriptor is
/// added, dropped or altered, and in particular the multiset of names is
/// kept exactly.
pub fn sort_ports(v: Vec<SerialPortDescriptor>) -> (r: Vec<SerialPortDescriptor>)
    ensures
        ports_sorted(r@),
        r@.to_multiset() == v@.to_multiset(),
        descriptor_names(r@).to_multiset() == descriptor_names(v@).to_multiset(),
        r@.len() == v@.len(),
{
    broadcast use vstd::seq_lib::group_to_multiset_ensures;

    let ghost orig = v@;
    let mut rest = v;
    let mut out: Vec<SerialPortDescriptor> = Vec::new();
    proof {
        assert(orig.take(0) =~= Seq::<SerialPortDescriptor>::empty());
        assert(out@ =~= orig.take(0));
        assert(descriptor_names(out@) =~= descriptor_names(orig.take(0)));
        assert(rest@ =~= orig.skip(0));
    }
    while rest.len() > 0
        invariant
            rest@.len() <= orig.len(),
            rest@ == orig.skip(orig.len() - rest@.len()),
            ports_sorted(out@),
            out@.to_multiset() == orig.take(orig.len() - rest@.len()).to_multiset(),
            descriptor_names(out@).to_multiset() == descriptor_names(
                orig.take(orig.len() - rest@.len()),
            ).to_multiset(),
        decreases rest@.len(),
    {
        let ghost k = orig.len() - rest@.len();
        let x = rest.remove(0);
        proof {
            assert(x == orig[k]);
            assert(rest@ =~= orig.skip(k + 1));
        }
        let mut pos: usize = 0;
        while pos < out.len() && !str_le(x.port_name.as_str(), out[pos].port_name.as_str())
            invariant
                pos <= out@.len(),
                forall|t: int| 0 <= t < pos ==> lex_le(#[trigger] out@[t].port_name@, x.port_name@),
            decreases out@.len() - pos,
        {
            proof {
                lemma_lex_le_total(x.port_name@, out@[pos as int].port_name@);
            }
            pos = pos + 1;
        }
        proof {
            let o = out@;
            let n = o.insert(pos as int, x);
            o.insert_ensures(pos as int, x);
            assert forall|i: int, j: int| 0 <= i < j < n.len() implies lex_le(
                n[i].port_name@,
                n[j].port_name@,
            ) by {
                if j < pos {
                    assert(n[i] == o[i] && n[j] == o[j]);
                } else if i > pos {
                    assert(n[i] == o[i - 1] && n[j] == o[j - 1]);
                } else if i == pos {
                    assert(n[i] == x && n[j] == o[j - 1]);
                    if j - 1 > pos {
                        lemma_lex_le_transitive(x.port_name@, o[pos as int].port_name@, o[j - 1].port_name@);
                    }
                } else if j == pos {
                    assert(n[i] == o[i] && n[j] == x);
                } else {
                    assert(i < pos && pos < j);
                    assert(n[i] == o[i] && n[j] == o[j - 1]);
                    assert(i < j - 1);
                }
            }
            lemma_insert_to_multiset(o, pos as int, x);
            descriptor_names(o).insert_ensures(pos as int, x.port_name@);
            assert(descriptor_names(n) =~= descriptor_names(o).insert(pos as int, x.port_name@));
            lemma_insert_to_multiset(descriptor_names(o), pos as int, x.port_name@);
            assert(orig.take(k + 1) =~= orig.take(k).push(orig[k]));
            assert(descriptor_names(orig.take(k + 1)) =~= descriptor_names(orig.take(k)).push(
                orig[k].port_name@,
            ));
            vstd::seq_lib::to_multiset_build(orig.take(k), orig[k]);
            vstd::seq_lib::to_multiset_build(descriptor_names(orig.take(k)), orig[k].port_name@);
        }
        out.insert(pos, x);
    }
    proof {
        assert(orig.take(orig.len() - rest@.len()) =~= orig);
        out@.to_multiset_ensures();
        orig.to_multiset_ensures();
    }
    out
}

/// Describes a whole enumeration: every discovered device is classified and
/// the listing comes back sorted ascending by device name, with exactly the
/// enumerated devices in it.
pub fn describe_ports(ports: Vec<RawPort>) -> (r: Vec<SerialPortDescriptor>)
    ensures
        ports_sorted(r@),
        r@.to_multiset() == classified(ports@).to_multiset(),
        descriptor_names(r@).to_multiset() == raw_names(ports@).to_multiset(),
        r@.len() == ports@.len(),
{
    broadcast use vstd::seq_lib::group_to_multiset_ensures;

    let ghost orig = ports@;
    let mut rest = ports;
    let mut out: Vec<SerialPortDescriptor> = Vec::new();
    proof {
        assert(orig.take(0) =~= Seq::<RawPort>::empty());
        assert(out@ =~= classified(orig.take(0)));
        assert(rest@ =~= orig.skip(0));
    }
    while rest.len() > 0
        invariant
            rest@.len() <= orig.len(),
            rest@ == orig.skip(orig.len() - rest@.len()),
            out@ == classified(orig.take(orig.len() - rest@.len())),
        decreases rest@.len(),
    {
        let ghost k = orig.len() - rest@.len();
        let x = rest.remove(0);
        proof {
            assert(x == orig[k]);
            assert(rest@ =~= orig.skip(k + 1));
        }
        let d = classify(x);
        out.push(d);
        proof {
            assert(orig.take(k + 1) =~= orig.take(k).push(orig[k]));
            assert(classified(orig.take(k + 1)) =~= classified(orig.take(k)).push(
                spec_classify(orig[k]),
            ));
        }
    }
    proof {
        assert(orig.take(orig.len() - rest@.len()) =~= orig);
    }
    let r = sort_ports(out);
    proof {
        assert(descriptor_names(classified(orig)) =~= raw_names(orig));
    }
    r
}


/// The label each kind is reported under to the host application: exactly
/// one of `usb`, `bluetooth`, `pci` or `unknown`.
pub fn kind_label(k: PortKind) -> (r: String)
    ensures
        k is Usb ==> r@ == "usb"@,
        k is Bluetooth ==> r@ == "bluetooth"@,
        k is Pci ==> r@ == "pci"@,
        k is Unknown ==> r@ == "unknown"@,
{
    match k {
        PortKind::Usb => String::from_str("usb"),
        PortKind::Bluetooth => String::from_str("bluetooth"),
        PortKind::Pci => String::from_str("pci"),
        PortKind::Unknown => String::from_str("unknown"),
    }
}

/// Within one enumeration call, device names are unique; a listing built
/// from such an enumeration therefore lists no name twice. The requirement
/// ties the listing to the enumeration by the multiset of names, exactly as
/// [`describe_ports`] guarantees it.
pub proof fn lemma_listing_names_unique(ports: Seq<RawPort>, r: Seq<SerialPortDescriptor>)
    requires
        descriptor_names(r).to_multiset() == raw_names(ports).to_multiset(),
        forall|i: int, j: int|
            0 <= i < j < ports.len() ==> #[trigger] ports[i].port_name@ != #[trigger] ports[j].port_name@,
    ensures
        forall|i: int, j: int|
            0 <= i < j < r.len() ==> #[trigger] r[i].port_name@ != #[trigger] r[j].port_name@,
{
    broadcast use vstd::seq_lib::group_to_multiset_ensures;

    assert(raw_names(ports).no_duplicates());
    raw_names(ports).lemma_multiset_has_no_duplicates();
    assert forall|x: Seq<char>|
        descriptor_names(r).to_multiset().contains(x) implies descriptor_names(
        r,
    ).to_multiset().count(x) == 1 by {
        assert(raw_names(ports).to_multiset().contains(x));
    }
    descriptor_names(r).lemma_multiset_has_no_duplicates_conv();
    assert forall|i: int, j: int|
        0 <= i < j < r.len() implies #[trigger] r[i].port_name@ != #[trigger] r[j].port_name@ by {
        assert(descriptor_names(r)[i] == r[i].port_name@);
        assert(descriptor_names(r)[j] == r[j].port_name@);
    }
}

} // verus!
