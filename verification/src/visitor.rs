//! A visitor over the parts of a computer.  A visitor is shown each part's
//! type in turn; a computer shows its parts first and itself last.  The
//! display visitor records what it is shown, in order, and a caller prints
//! the recorded names.

use vstd::prelude::*;

verus! {

/// The kind of a computer part.
#[derive(Clone, Copy, Debug, PartialEq, Eq, Structural)]
pub enum ComputerPartType {
    KEYBOARD,
    MOUSE,
    MONITOR,
    COMPUTER,
}

impl ComputerPartType {
    /// The display name of this kind.
    pub open spec fn name_spec(&self) -> Seq<char> {
        match self {
            ComputerPartType::KEYBOARD => "Keyboard"@,
            ComputerPartType::MOUSE => "Mouse"@,
            ComputerPartType::MONITOR => "Monitor"@,
            ComputerPartType::COMPUTER => "Computer"@,
        }
    }

    pub fn as_str(&self) -> (r: &'static str)
        ensures
            r@ == self.name_spec(),
    {
        match self {
            ComputerPartType::KEYBOARD => "Keyboard",
            ComputerPartType::MOUSE => "Mouse",
            ComputerPartType::MONITOR => "Monitor",
            ComputerPartType::COMPUTER => "Computer",
        }
    }
}

/// A visitor over computer parts.  `visited` is the sequence of part types
/// it has been shown, oldest first; each visit appends exactly one.
pub trait ComputerPartVisitor: Sized {
    spec fn visited(&self) -> Seq<ComputerPartType>;

    fn visit(&mut self, part_type: ComputerPartType)
        ensures
            final(self).visited() == old(self).visited().push(part_type),
    ;
}

pub struct Keyboard;

impl Keyboard {
    pub fn new() -> (r: Keyboard) {
        Keyboard
    }

    pub fn get_type(&self) -> (r: ComputerPartType)
        ensures
            r == ComputerPartType::KEYBOARD,
    {
        ComputerPartType::KEYBOARD
    }

    pub fn accept<V: ComputerPartVisitor>(&self, visitor: &mut V)
        ensures
            final(visitor).visited() == old(visitor).visited().push(ComputerPartType::KEYBOARD),
    {
        visitor.visit(self.get_type());
    }
}

pub struct Mouse;

impl Mouse {
    pub fn new() -> (r: Mouse) {
        Mouse
    }

    pub fn get_type(&self) -> (r: ComputerPartType)
        ensures
            r == ComputerPartType::MOUSE,
    {
        ComputerPartType::MOUSE
    }

    pub fn accept<V: ComputerPartVisitor>(&self, visitor: &mut V)
        ensures
            final(visitor).visited() == old(visitor).visited().push(ComputerPartType::MOUSE),
    {
        visitor.visit(self.get_type());
    }
}

pub struct Monitor;

impl Monitor {
    pub fn new() -> (r: Monitor) {
        Monitor
    }

    pub fn get_type(&self) -> (r: ComputerPartType)
        ensures
            r == ComputerPartType::MONITOR,
    {
        ComputerPartType::MONITOR
    }

    pub fn accept<V: ComputerPartVisitor>(&self, visitor: &mut V)
        ensures
            final(visitor).visited() == old(visitor).visited().push(ComputerPartType::MONITOR),
    {
        visitor.visit(self.get_type());
    }
}

/// One part a computer may own, dispatched by kind.
pub enum PartKind {
    Keyboard(Keyboard),
    Mouse(Mouse),
    Monitor(Monitor),
}

impl PartKind {
    pub open spec fn type_spec(&self) -> ComputerPartType {
        match self {
            PartKind::Keyboard(_) => ComputerPartType::KEYBOARD,
            PartKind::Mouse(_) => ComputerPartType::MOUSE,
            PartKind::Monitor(_) => ComputerPartType::MONITOR,
        }
    }

    pub fn get_type(&self) -> (r: ComputerPartType)
        ensures
            r == self.type_spec(),
    {
        match self {
            PartKind::Keyboard(k) => k.get_type(),
            PartKind::Mouse(m) => m.get_type(),
            PartKind::Monitor(m) => m.get_type(),
        }
    }

    pub fn accept<V: ComputerPartVisitor>(&self, visitor: &mut V)
        ensures
            final(visitor).visited() == old(visitor).visited().push(self.type_spec()),
    {
        match self {
            PartKind::Keyboard(k) => k.accept(visitor),
            PartKind::Mouse(m) => m.accept(visitor),
            PartKind::Monitor(m) => m.accept(visitor),
        }
    }
}

/// A computer: a composite part that owns other parts.  It shows a visitor
/// its parts in order and itself last.
pub struct Computer {
    pub parts: Vec<PartKind>,
}

impl Computer {
    /// The types of the owned parts, in order.
    pub open spec fn part_types(&self) -> Seq<ComputerPartType> {
        self.parts@.map_values(|p: PartKind| p.type_spec())
    }

    pub fn new() -> (r: Computer)
        ensures
            r.part_types() =~= seq![
                ComputerPartType::KEYBOARD,
                ComputerPartType::MOUSE,
                ComputerPartType::MONITOR,
            ],
    {
        Computer {
            parts: vec![
                PartKind::Keyboard(Keyboard::new()),
                PartKind::Mouse(Mouse::new()),
                PartKind::Monitor(Monitor::new()),
            ],
        }
    }

    pub fn get_type(&self) -> (r: ComputerPartType)
        ensures
            r == ComputerPartType::COMPUTER,
    {
        ComputerPartType::COMPUTER
    }

    pub fn accept<V: ComputerPartVisitor>(&self, visitor: &mut V)
        ensures
            final(visitor).visited() == old(visitor).visited() + self.part_types().push(
                ComputerPartType::COMPUTER,
            ),
    {
        let ghost initial = visitor.visited();
        let mut i: usize = 0;
        while i < self.parts.len()
            invariant
                i <= self.parts.len(),
                visitor.visited() == initial + self.part_types().take(i as int),
            decreases self.parts.len() - i,
        {
            self.parts[i].accept(visitor);
            proof {
                assert(self.part_types().take(i as int + 1) =~= self.part_types().take(
                    i as int,
                ).push(self.part_types()[i as int]));
            }
            i = i + 1;
        }
        proof {
            assert(self.part_types().take(self.parts@.len() as int) =~= self.part_types());
        }
        visitor.visit(self.get_type());
    }
}

/// The display visitor: records each part type it is shown; a caller turns
/// the record into printed names with `ComputerPartType::as_str`.
pub struct ComputerPartDisplayVisitor {
    pub seen: Vec<ComputerPartType>,
}

impl ComputerPartDisplayVisitor {
    pub fn new() -> (r: ComputerPartDisplayVisitor)
        ensures
            r.visited() == Seq::<ComputerPartType>::empty(),
    {
        ComputerPartDisplayVisitor { seen: Vec::new() }
    }
}

impl ComputerPartVisitor for ComputerPartDisplayVisitor {
    open spec fn visited(&self) -> Seq<ComputerPartType> {
        self.seen@
    }

    fn visit(&mut self, part_type: ComputerPartType) {
        self.seen.push(part_type);
    }
}

} // verus!
