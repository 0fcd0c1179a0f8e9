//! The list of serial ports offered to the operator and the one selected.
use vstd::prelude::*;

verus! {

/// USB vendor id of the instrument's microcontroller board.
pub const TEENSY_VENDOR_ID: u16 = 0x16C0;

pub open spec fn teensy_name() -> Seq<char> {
    seq!['T', 'e', 'e', 'n', 's', 'y', 'd', 'u', 'i', 'n', 'o']
}

pub open spec fn none_name() -> Seq<char> {
    seq!['N', 'o', 'n', 'e']
}

/// What the port list needs of one serial port: its system name and, for a
/// USB port, its vendor id.
#[derive(Debug, Clone)]
pub struct PortEntry {
    pub name: String,
    pub usb_vendor: Option<u16>,
}

/// Name under which a port is offered: the board's name for a port of the
/// instrument's board, the system name otherwise.
pub open spec fn display_name(port: PortEntry) -> Seq<char> {
    if port.usb_vendor == Some(TEENSY_VENDOR_ID) {
        teensy_name()
    } else {
        port.name@
    }
}

/// The ports available and the index of the one selected.
#[derive(Debug, Clone)]
pub struct Serial {
    pub ports: Vec<PortEntry>,
    pub port_selected: usize,
}

impl Serial {
    /// A port list with the first port selected.
    pub fn new(ports: Vec<PortEntry>) -> (s: Serial)
        ensures
            s.ports@ == ports@,
            s.port_selected == 0,
    {
        Serial { ports, port_selected: 0 }
    }

    pub fn get_port_name(port: &PortEntry) -> (r: String)
        ensures
            r@ == display_name(*port),
    {
        if port.usb_vendor == Some(TEENSY_VENDOR_ID) {
            let r = String::from_str("Teensyduino");
            proof {
                reveal_strlit("Teensyduino");
            }
            assert(r@ =~= teensy_name());
            r
        } else {
            port.name.clone()
        }
    }

    /// Names of all ports, in list order.
    pub fn port_names(&self) -> (r: Vec<String>)
        ensures
            r@.len() == self.ports@.len(),
            forall|i: int| 0 <= i < r@.len() ==> (#[trigger] r@[i])@ == display_name(self.ports@[i]),
    {
        let mut r: Vec<String> = Vec::new();
        let mut i: usize = 0;
        while i < self.ports.len()
            invariant
                i <= self.ports@.len(),
                r@.len() == i,
                forall|k: int| 0 <= k < i ==> (#[trigger] r@[k])@ == display_name(self.ports@[k]),
            decreases self.ports@.len() - i,
        {
            r.push(Serial::get_port_name(&self.ports[i]));
            i += 1;
        }
        r
    }

    /// Name of the selected port, or `None` when the selection is past the list.
    pub fn selected_port_name(&self) -> (r: String)
        ensures
            r@ == if self.port_selected < self.ports@.len() {
                display_name(self.ports@[self.port_selected as int])
            } else {
                none_name()
            },
    {
        if self.port_selected < self.ports.len() {
            Serial::get_port_name(&self.ports[self.port_selected])
        } else {
            let r = String::from_str("None");
            proof {
                reveal_strlit("None");
            }
            assert(r@ =~= none_name());
            r
        }
    }

    /// System name of the selected port, the one to open; `None` when the
    /// selection is past the list.
    pub fn selected_device(&self) -> (r: Option<String>)
        ensures
            self.port_selected < self.ports@.len() ==> (r matches Some(n)
                && n@ == self.ports@[self.port_selected as int].name@),
            self.port_selected >= self.ports@.len() ==> r is None,
    {
        if self.port_selected < self.ports.len() {
            Some(self.ports[self.port_selected].name.clone())
        } else {
            None
        }
    }

    /// Replaces the port list, as after a new scan; the selected index stays.
    pub fn set_ports(&mut self, ports: Vec<PortEntry>)
        ensures
            final(self).ports@ == ports@,
            final(self).port_selected == old(self).port_selected,
    {
        self.ports = ports;
    }

    /// Selects port `idx`.
    pub fn select(&mut self, idx: usize)
        ensures
            final(self).ports@ == old(self).ports@,
            final(self).port_selected == idx,
    {
        self.port_selected = idx;
    }
}

} // verus!
