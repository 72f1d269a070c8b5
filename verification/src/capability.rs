//! What window managers can do, and how to make up for what they cannot.
use crate::error::WmError;
use crate::topology;
use crate::topology::Direction;
use vstd::prelude::*;
use vstd::string::*;

verus! {

/// How an operation is supported.
#[derive(Debug, Clone, Copy, PartialEq, Eq, Structural)]
pub enum CapabilitySupport {
    /// The window manager does it by itself.
    Native,
    /// It is put together from primitive operations.
    Composed,
    /// It cannot be done.
    Unsupported,
}

/// How an operation is supported in each direction.
#[derive(Debug, Clone, Copy, PartialEq, Eq, Structural)]
pub struct DirectionalCapability {
    pub west: CapabilitySupport,
    pub east: CapabilitySupport,
    pub north: CapabilitySupport,
    pub south: CapabilitySupport,
}

impl DirectionalCapability {
    /// The support in one direction.
    pub open spec fn towards(self, direction: Direction) -> CapabilitySupport {
        match direction {
            Direction::West => self.west,
            Direction::East => self.east,
            Direction::North => self.north,
            Direction::South => self.south,
        }
    }

    /// The same support in every direction.
    pub open spec fn all(value: CapabilitySupport) -> DirectionalCapability {
        DirectionalCapability { west: value, east: value, north: value, south: value }
    }

    /// Declares the same support in every direction.
    pub fn uniform(value: CapabilitySupport) -> (result: DirectionalCapability)
        ensures
            result == DirectionalCapability::all(value),
    {
        DirectionalCapability { west: value, east: value, north: value, south: value }
    }

    /// Looks up the support in one direction.
    pub fn for_direction(self, direction: Direction) -> (result: CapabilitySupport)
        ensures
            result == self.towards(direction),
    {
        match direction {
            Direction::West => self.west,
            Direction::East => self.east,
            Direction::North => self.north,
            Direction::South => self.south,
        }
    }
}

/// The primitive operations from which others can be composed.
#[derive(Debug, Clone, Copy, PartialEq, Eq, Structural)]
pub struct PrimitiveWindowManagerCapabilities {
    pub tear_out_right: bool,
    pub move_column: bool,
    pub consume_into_column_and_move: bool,
    pub set_window_width: bool,
    pub set_window_height: bool,
}

/// What a window manager declares that it can do.
#[derive(Debug, Clone, Copy, PartialEq, Eq, Structural)]
pub struct WindowManagerCapabilities {
    pub primitives: PrimitiveWindowManagerCapabilities,
    pub tear_out: DirectionalCapability,
    pub resize: DirectionalCapability,
}

/// The operations that can be composed.
#[derive(Debug, Clone, Copy, PartialEq, Eq, Structural)]
pub enum ComposedOperation {
    TearOut,
    Resize,
}

/// A declaration that cannot hold: `operation` is composed towards `direction`, but a primitive
/// that this takes is missing.
#[derive(Debug, Clone, Copy, PartialEq, Eq, Structural)]
pub struct CapabilityFault {
    pub operation: ComposedOperation,
    pub direction: Direction,
}

/// The text of a fault.
pub open spec fn fault_text(fault: CapabilityFault) -> Seq<char> {
    "invalid capability declaration: "@ + (match fault.operation {
        ComposedOperation::TearOut => "tear_out."@,
        ComposedOperation::Resize => "resize."@,
    }) + topology::direction_text(fault.direction)
        + " is composed but required primitives are missing"@
}

impl CapabilityFault {
    /// Renders the fault as text.
    pub fn message(&self) -> (result: String)
        ensures
            result@ == fault_text(*self),
    {
        let mut text: String = "invalid capability declaration: ".to_owned();
        match self.operation {
            ComposedOperation::TearOut => text.append("tear_out."),
            ComposedOperation::Resize => text.append("resize."),
        }
        text.append(self.direction.name());
        text.append(" is composed but required primitives are missing");
        text
    }
}

impl WindowManagerCapabilities {
    /// The primitives allow tearing a window out towards `direction`.
    pub open spec fn can_compose_tear_out(self, direction: Direction) -> bool {
        self.primitives.tear_out_right && match direction {
            Direction::West | Direction::East => self.primitives.move_column,
            Direction::North | Direction::South => self.primitives.consume_into_column_and_move,
        }
    }

    /// The primitives allow resizing a window towards `direction`.
    pub open spec fn can_compose_resize(self, direction: Direction) -> bool {
        match direction {
            Direction::West | Direction::East => self.primitives.set_window_width,
            Direction::North | Direction::South => self.primitives.set_window_height,
        }
    }

    /// The declaration has this fault.
    pub open spec fn has_fault(self, fault: CapabilityFault) -> bool {
        match fault.operation {
            ComposedOperation::TearOut => self.tear_out.towards(fault.direction)
                == CapabilitySupport::Composed && !self.can_compose_tear_out(fault.direction),
            ComposedOperation::Resize => self.resize.towards(fault.direction)
                == CapabilitySupport::Composed && !self.can_compose_resize(fault.direction),
        }
    }

    /// Whatever is declared as composed can be composed.
    pub open spec fn is_valid(self) -> bool {
        forall|fault: CapabilityFault| !self.has_fault(fault)
    }

    /// The order in which faults are looked for: west, east, north, south, and tearing out before
    /// resizing.
    pub open spec fn fault_order(fault: CapabilityFault) -> int {
        (match fault.direction {
            Direction::West => 0int,
            Direction::East => 2,
            Direction::North => 4,
            Direction::South => 6,
        }) + (match fault.operation {
            ComposedOperation::TearOut => 0int,
            ComposedOperation::Resize => 1,
        })
    }

    /// Declares that nothing can be done.
    pub fn none() -> (result: WindowManagerCapabilities)
        ensures
            result == (WindowManagerCapabilities {
                primitives: PrimitiveWindowManagerCapabilities {
                    tear_out_right: false,
                    move_column: false,
                    consume_into_column_and_move: false,
                    set_window_width: false,
                    set_window_height: false,
                },
                tear_out: DirectionalCapability::all(CapabilitySupport::Unsupported),
                resize: DirectionalCapability::all(CapabilitySupport::Unsupported),
            }),
    {
        WindowManagerCapabilities {
            primitives: PrimitiveWindowManagerCapabilities {
                tear_out_right: false,
                move_column: false,
                consume_into_column_and_move: false,
                set_window_width: false,
                set_window_height: false,
            },
            tear_out: DirectionalCapability::uniform(CapabilitySupport::Unsupported),
            resize: DirectionalCapability::uniform(CapabilitySupport::Unsupported),
        }
    }

    /// Reports the first fault of the declaration, if it has one.
    pub fn validate(self) -> (result: Result<(), CapabilityFault>)
        ensures
            match result {
                Ok(_) => self.is_valid(),
                Err(fault) => self.has_fault(fault) && forall|other: CapabilityFault|
                    #[trigger] self.has_fault(other) ==> Self::fault_order(fault)
                        <= Self::fault_order(other),
            },
    {
        let directions: [Direction; 4] = [
            Direction::West,
            Direction::East,
            Direction::North,
            Direction::South,
        ];
        let mut at: usize = 0;
        while at < 4
            invariant
                at <= 4,
                directions@ == seq![
                    Direction::West,
                    Direction::East,
                    Direction::North,
                    Direction::South,
                ],
                forall|fault: CapabilityFault|
                    #[trigger] self.has_fault(fault) ==> Self::fault_order(fault) >= 2 * at,
            decreases 4 - at,
        {
            let direction: Direction = directions[at];
            if self.tear_out.for_direction(direction) == CapabilitySupport::Composed
                && !supports_composed_tear_out(self, direction) {
                let fault = CapabilityFault { operation: ComposedOperation::TearOut, direction };
                assert(self.has_fault(fault));
                return Err(fault);
            }
            if self.resize.for_direction(direction) == CapabilitySupport::Composed
                && !supports_composed_resize(self, direction) {
                let fault = CapabilityFault { operation: ComposedOperation::Resize, direction };
                assert(self.has_fault(fault));
                return Err(fault);
            }
            at += 1;
        }
        Ok(())
    }
}

fn supports_composed_tear_out(
    capabilities: WindowManagerCapabilities,
    direction: Direction,
) -> (result: bool)
    ensures
        result == capabilities.can_compose_tear_out(direction),
{
    if !capabilities.primitives.tear_out_right {
        return false;
    }
    match direction {
        Direction::West | Direction::East => capabilities.primitives.move_column,
        Direction::North | Direction::South => capabilities.primitives.consume_into_column_and_move,
    }
}

fn supports_composed_resize(capabilities: WindowManagerCapabilities, direction: Direction) -> (result:
    bool)
    ensures
        result == capabilities.can_compose_resize(direction),
{
    match direction {
        Direction::West | Direction::East => capabilities.primitives.set_window_width,
        Direction::North | Direction::South => capabilities.primitives.set_window_height,
    }
}

/// What a declared support amounts to, given whether composition is possible.
pub open spec fn effective(declared: CapabilitySupport, composable: bool) -> CapabilitySupport {
    match declared {
        CapabilitySupport::Native => CapabilitySupport::Native,
        CapabilitySupport::Composed => if composable {
            CapabilitySupport::Composed
        } else {
            CapabilitySupport::Unsupported
        },
        CapabilitySupport::Unsupported => CapabilitySupport::Unsupported,
    }
}

/// Decides how to tear a window out towards `direction`.
pub fn plan_tear_out(capabilities: WindowManagerCapabilities, direction: Direction) -> (result:
    CapabilitySupport)
    ensures
        result == effective(
            capabilities.tear_out.towards(direction),
            capabilities.can_compose_tear_out(direction),
        ),
{
    match capabilities.tear_out.for_direction(direction) {
        CapabilitySupport::Native => CapabilitySupport::Native,
        CapabilitySupport::Composed => if supports_composed_tear_out(capabilities, direction) {
            CapabilitySupport::Composed
        } else {
            CapabilitySupport::Unsupported
        },
        CapabilitySupport::Unsupported => CapabilitySupport::Unsupported,
    }
}

/// Decides how to resize a window towards `direction`.
pub fn plan_resize(capabilities: WindowManagerCapabilities, direction: Direction) -> (result:
    CapabilitySupport)
    ensures
        result == effective(
            capabilities.resize.towards(direction),
            capabilities.can_compose_resize(direction),
        ),
{
    match capabilities.resize.for_direction(direction) {
        CapabilitySupport::Native => CapabilitySupport::Native,
        CapabilitySupport::Composed => if supports_composed_resize(capabilities, direction) {
            CapabilitySupport::Composed
        } else {
            CapabilitySupport::Unsupported
        },
        CapabilitySupport::Unsupported => CapabilitySupport::Unsupported,
    }
}

/// A valid declaration is carried out as declared, in every direction; and a declaration that is
/// carried out as declared is valid.
pub proof fn valid_declarations_are_carried_out_as_declared(
    capabilities: WindowManagerCapabilities,
)
    ensures
        capabilities.is_valid() <==> forall|direction: Direction|
            #![trigger capabilities.tear_out.towards(direction)]
            effective(
                capabilities.tear_out.towards(direction),
                capabilities.can_compose_tear_out(direction),
            ) == capabilities.tear_out.towards(direction) && effective(
                capabilities.resize.towards(direction),
                capabilities.can_compose_resize(direction),
            ) == capabilities.resize.towards(direction),
{
    if capabilities.is_valid() {
        assert forall|direction: Direction|
            #![trigger capabilities.tear_out.towards(direction)]
            effective(
                capabilities.tear_out.towards(direction),
                capabilities.can_compose_tear_out(direction),
            ) == capabilities.tear_out.towards(direction) && effective(
                capabilities.resize.towards(direction),
                capabilities.can_compose_resize(direction),
            ) == capabilities.resize.towards(direction) by {
            assert(!capabilities.has_fault(
                CapabilityFault { operation: ComposedOperation::TearOut, direction },
            ));
            assert(!capabilities.has_fault(
                CapabilityFault { operation: ComposedOperation::Resize, direction },
            ));
        }
    } else {
        let fault = choose|fault: CapabilityFault| capabilities.has_fault(fault);
        let support = capabilities.tear_out.towards(fault.direction);
        assert(capabilities.has_fault(fault));
    }
}

/// Nothing is ever carried out that was not declared: plans never exceed the declaration.
pub proof fn plans_never_exceed_the_declaration(declared: CapabilitySupport, composable: bool)
    ensures
        declared == CapabilitySupport::Unsupported ==> effective(declared, composable)
            == CapabilitySupport::Unsupported,
        effective(declared, composable) == CapabilitySupport::Native <==> declared
            == CapabilitySupport::Native,
        effective(declared, composable) == CapabilitySupport::Composed ==> composable,
{
}

/// Says what an adapter is called and what it can do.
pub trait WindowManagerCapabilityDescriptor {
    /// The name of the adapter.
    open spec fn label() -> Seq<char> {
        arbitrary()
    }

    /// What the adapter declares.
    open spec fn declared() -> WindowManagerCapabilities {
        arbitrary()
    }

    /// Names the adapter.
    fn name() -> (result: &'static str)
        ensures
            result@ == Self::label(),
    ;

    /// Declares what the adapter can do.
    fn capabilities() -> (result: WindowManagerCapabilities)
        ensures
            result == Self::declared(),
    ;
}

/// Refuses an adapter whose declaration has a fault.
pub fn validate_declared_capabilities<T: WindowManagerCapabilityDescriptor>() -> (result: Result<
    (),
    WmError,
>)
    ensures
        match result {
            Ok(_) => T::declared().is_valid(),
            Err(error) => error matches WmError::InvalidCapabilities { adapter, fault } && adapter@
                == T::label() && T::declared().has_fault(fault) && forall|other: CapabilityFault|
                #[trigger] T::declared().has_fault(other)
                    ==> WindowManagerCapabilities::fault_order(fault)
                    <= WindowManagerCapabilities::fault_order(other),
        },
{
    match T::capabilities().validate() {
        Ok(_) => Ok(()),
        Err(fault) => Err(WmError::InvalidCapabilities { adapter: T::name(), fault }),
    }
}

/// The support in a direction is what is declared for that direction, and a uniform declaration
/// declares the same for all four.
pub proof fn support_is_looked_up_by_direction(
    capability: DirectionalCapability,
    direction: Direction,
    support: CapabilitySupport,
    value: CapabilitySupport,
    uniform: DirectionalCapability,
)
    requires
        call_ensures(DirectionalCapability::for_direction, (capability, direction), support),
        call_ensures(DirectionalCapability::uniform, (value,), uniform),
    ensures
        direction is West ==> support == capability.west,
        direction is East ==> support == capability.east,
        direction is North ==> support == capability.north,
        direction is South ==> support == capability.south,
        uniform.west == value && uniform.east == value,
        uniform.north == value && uniform.south == value,
        support == capability.towards(direction),
        uniform == DirectionalCapability::all(value),
{
}

/// What is native stays native. What is declared as composed is composed exactly if the primitives
/// for it are there: tearing out takes tearing out to the right, and moving columns sideways or
/// consuming into columns up and down; resizing takes setting the width sideways or the height up
/// and down. Anything else is not supported.
pub proof fn composition_takes_its_primitives(
    capabilities: WindowManagerCapabilities,
    direction: Direction,
    tear_out: CapabilitySupport,
    resize: CapabilitySupport,
)
    requires
        call_ensures(plan_tear_out, (capabilities, direction), tear_out),
        call_ensures(plan_resize, (capabilities, direction), resize),
    ensures
        ({
            let primitives = capabilities.primitives;
            let sideways = direction is West || direction is East;
            let declared = capabilities.tear_out.towards(direction);
            &&& tear_out is Native <==> declared is Native
            &&& tear_out is Composed <==> declared is Composed && primitives.tear_out_right
                && if sideways {
                primitives.move_column
            } else {
                primitives.consume_into_column_and_move
            }
        }),
        ({
            let primitives = capabilities.primitives;
            let sideways = direction is West || direction is East;
            let declared = capabilities.resize.towards(direction);
            &&& resize is Native <==> declared is Native
            &&& resize is Composed <==> declared is Composed && if sideways {
                primitives.set_window_width
            } else {
                primitives.set_window_height
            }
        }),
{
}

/// A declaration is refused exactly if something that it declares as composed cannot be, and the
/// first such thing is reported: west comes before east, east before north and north before south,
/// and tearing out before resizing.
pub proof fn the_first_impossible_declaration_is_reported(
    capabilities: WindowManagerCapabilities,
    result: Result<(), CapabilityFault>,
    direction: Direction,
    tear_out: CapabilitySupport,
    resize: CapabilitySupport,
)
    requires
        call_ensures(WindowManagerCapabilities::validate, (capabilities,), result),
        call_ensures(plan_tear_out, (capabilities, direction), tear_out),
        call_ensures(plan_resize, (capabilities, direction), resize),
    ensures
        ({
            let torn = tear_out != capabilities.tear_out.towards(direction);
            let resized = resize != capabilities.resize.towards(direction);
            match result {
                Ok(_) => !torn && !resized,
                Err(fault) => {
                    &&& fault.direction == direction && fault.operation is TearOut ==> torn
                    &&& fault.direction == direction && fault.operation is Resize ==> resized
                        && !torn
                    &&& torn || resized ==> match fault.direction {
                        Direction::West => true,
                        Direction::East => direction !is West,
                        Direction::North => direction is North || direction is South,
                        Direction::South => direction is South,
                    }
                },
            }
        }),
{
    let tearing = CapabilityFault { operation: ComposedOperation::TearOut, direction };
    let resizing = CapabilityFault { operation: ComposedOperation::Resize, direction };
    assert(capabilities.has_fault(tearing) == (tear_out != capabilities.tear_out.towards(direction)));
    assert(capabilities.has_fault(resizing) == (resize != capabilities.resize.towards(direction)));
}

/// A fault is reported with the operation and the direction that it concerns.
pub proof fn faults_name_what_they_concern(fault: CapabilityFault, message: String)
    requires
        call_ensures(CapabilityFault::message, (&fault,), message),
    ensures
        fault.operation is TearOut ==> message@ == "invalid capability declaration: "@
            + "tear_out."@ + topology::direction_text(fault.direction)
            + " is composed but required primitives are missing"@,
        fault.operation is Resize ==> message@ == "invalid capability declaration: "@ + "resize."@
            + topology::direction_text(fault.direction)
            + " is composed but required primitives are missing"@,
{
}

/// Declaring that nothing can be done declares no primitive and no support in any direction.
pub proof fn nothing_is_declared_by_none(direction: Direction, result: WindowManagerCapabilities)
    requires
        call_ensures(WindowManagerCapabilities::none, (), result),
    ensures
        !result.primitives.tear_out_right,
        !result.primitives.move_column,
        !result.primitives.consume_into_column_and_move,
        !result.primitives.set_window_width,
        !result.primitives.set_window_height,
        result.tear_out.towards(direction) is Unsupported,
        result.resize.towards(direction) is Unsupported,
{
}

/// An adapter is refused exactly if its declaration is, with its own name and the fault that the
/// declaration is refused for.
pub proof fn adapters_are_refused_with_their_declaration<T: WindowManagerCapabilityDescriptor>(
    declared: WindowManagerCapabilities,
    name: &'static str,
    validated: Result<(), CapabilityFault>,
    result: Result<(), WmError>,
)
    requires
        call_ensures(T::capabilities, (), declared),
        call_ensures(T::name, (), name),
        call_ensures(WindowManagerCapabilities::validate, (declared,), validated),
        call_ensures(validate_declared_capabilities::<T>, (), result),
    ensures
        result is Ok <==> validated is Ok,
        result matches Err(error) ==> (error matches WmError::InvalidCapabilities { adapter, fault }
            && adapter@ == name@ && fault == validated->Err_0),
{
}

} // verus!
