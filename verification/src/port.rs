//! Port-selection state: the lists of MIDI port names offered per direction
//! and the current choice. Reading the ports from the system and drawing the
//! widget live outside the library; this module holds the state they share.

use vstd::prelude::*;

verus! {

/// Port direction, from the host's point of view.
#[derive(Clone, Copy, Debug, PartialEq, Eq)]
pub enum Direction {
    In,
    Out,
}

impl Direction {
    /// The slot this direction occupies in per-direction storage.
    pub fn idx(self) -> (r: usize)
        ensures
            self is In ==> r == 0,
            self is Out ==> r == 1,
    {
        match self {
            Direction::In => 0,
            Direction::Out => 1,
        }
    }

    /// The label shown for this direction.
    pub fn as_str(&self) -> (r: &'static str)
        ensures
            self is In ==> r@ == "In Port"@,
            self is Out ==> r@ == "Out Port"@,
    {
        match self {
            Direction::In => "In Port",
            Direction::Out => "Out Port",
        }
    }
}

/// What the user asked for by picking an entry, or that the list was only
/// opened for a look.
#[derive(Debug, PartialEq, Eq)]
pub enum Response {
    Connect((Direction, String)),
    Disconnect(Direction),
    CheckingList,
}

/// The mathematical value of one direction's port state.
#[verifier::ext_equal]
pub struct PortsModel {
    pub list: Seq<String>,
    pub cur: Option<String>,
}

/// The port names offered for one direction and the current connection,
/// `None` while disconnected.
#[derive(Debug)]
pub struct DirectionalPorts {
    list: Vec<String>,
    cur: Option<String>,
}

impl View for DirectionalPorts {
    type V = PortsModel;

    closed spec fn view(&self) -> PortsModel {
        PortsModel { list: self.list@, cur: self.cur }
    }
}

impl DirectionalPorts {
    /// Replaces this direction's offer and current connection wholesale.
    pub fn update_from(&mut self, list: Vec<String>, cur: Option<String>) -> (r: ())
        ensures
            final(self)@.list == list@,
            final(self)@.cur == cur,
    {
        self.list = list;
        self.cur = cur;
    }

    pub fn port_names(&self) -> (r: &Vec<String>)
        ensures
            r@ == self@.list,
    {
        &self.list
    }

    pub fn current(&self) -> (r: &Option<String>)
        ensures
            *r == self@.cur,
    {
        &self.cur
    }
}

impl Default for DirectionalPorts {
    /// No ports offered, nothing connected.
    fn default() -> (r: DirectionalPorts)
        ensures
            r@.list == Seq::<String>::empty(),
            r@.cur is None,
    {
        let r = DirectionalPorts { list: Vec::new(), cur: None };
        proof {
            assert(r@.list =~= Seq::<String>::empty());
        }
        r
    }
}

/// The port state for both directions.
pub struct PortsWidget {
    ports_in: DirectionalPorts,
    ports_out: DirectionalPorts,
}

impl PortsWidget {
    /// The port state of one direction.
    pub closed spec fn spec_ports(self, direction: Direction) -> PortsModel {
        match direction {
            Direction::In => self.ports_in@,
            Direction::Out => self.ports_out@,
        }
    }

    /// Both directions empty and disconnected.
    pub fn new() -> (r: PortsWidget)
        ensures
            r.spec_ports(Direction::In).list == Seq::<String>::empty(),
            r.spec_ports(Direction::In).cur is None,
            r.spec_ports(Direction::Out).list == Seq::<String>::empty(),
            r.spec_ports(Direction::Out).cur is None,
    {
        PortsWidget { ports_in: Default::default(), ports_out: Default::default() }
    }

    /// Replaces the state of both directions from fresh port scans.
    pub fn update(
        &mut self,
        in_list: Vec<String>,
        in_cur: Option<String>,
        out_list: Vec<String>,
        out_cur: Option<String>,
    ) -> (r: ())
        ensures
            final(self).spec_ports(Direction::In).list == in_list@,
            final(self).spec_ports(Direction::In).cur == in_cur,
            final(self).spec_ports(Direction::Out).list == out_list@,
            final(self).spec_ports(Direction::Out).cur == out_cur,
    {
        self.ports_in.update_from(in_list, in_cur);
        self.ports_out.update_from(out_list, out_cur);
    }

    /// The port state of one direction, for a caller to render.
    pub fn ports(&self, direction: Direction) -> (r: &DirectionalPorts)
        ensures
            r@ == self.spec_ports(direction),
    {
        match direction {
            Direction::In => &self.ports_in,
            Direction::Out => &self.ports_out,
        }
    }
}

} // verus!
