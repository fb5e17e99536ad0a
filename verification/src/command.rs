//! The command line: which of the three operations is asked for, and with
//! what.

use vstd::prelude::*;
use vstd::string::*;
use crate::text::{
    i32_value, matches_token, parse_i32, parse_u32, same_ignoring_case, texts, u32_value,
};

verus! {

/// A request to move one display: its number, counted from one, and the
/// place of its top-left corner in the virtual desktop.
#[derive(Clone, Copy, Debug, PartialEq, Eq)]
pub struct PositionRequest {
    display: u32,
    x: i32,
    y: i32,
}

/// What a [`PositionRequest`] holds.
pub ghost struct RequestView {
    pub display: u32,
    pub x: i32,
    pub y: i32,
}

impl View for PositionRequest {
    type V = RequestView;

    closed spec fn view(&self) -> RequestView {
        RequestView { display: self.display, x: self.x, y: self.y }
    }
}

impl PositionRequest {
    #[verifier::type_invariant]
    spec fn counted_from_one(self) -> bool {
        self.display >= 1
    }

    /// A request to move display number `display` to `(x, y)`. There is no
    /// display number zero: for it the result is `None`.
    pub fn new(display: u32, x: i32, y: i32) -> (request: Option<PositionRequest>)
        ensures
            request is None <==> display == 0,
            request matches Some(r) ==> r@ == (RequestView { display, x, y }),
    {
        if display == 0 {
            None
        } else {
            Some(PositionRequest { display, x, y })
        }
    }

    /// The number of the display, counted from one.
    pub fn display(&self) -> (number: u32)
        ensures
            number == self@.display,
            number >= 1,
    {
        proof {
            use_type_invariant(self);
        }
        self.display
    }

    /// The place of the display in the enumeration, which counts from zero:
    /// one less than its number.
    pub fn index(&self) -> (index: u32)
        ensures
            index == self@.display - 1,
    {
        proof {
            use_type_invariant(self);
        }
        self.display - 1
    }

    /// The horizontal position asked for.
    pub fn x(&self) -> (x: i32)
        ensures
            x == self@.x,
    {
        self.x
    }

    /// The vertical position asked for.
    pub fn y(&self) -> (y: i32)
        ensures
            y == self@.y,
    {
        self.y
    }
}

/// Why an argument list names no position requests.
#[derive(Clone, Copy, Debug, PartialEq, Eq, Structural)]
pub enum ArgError {
    /// The argument at `position` is not a whole number written in base ten,
    /// or one that does not fit: a display number is unsigned, a coordinate
    /// signed.
    Malformed { position: usize },
    /// The argument at `position` is the display number zero; displays are
    /// counted from one.
    DisplayZero { position: usize },
}

/// The views of the requests in `requests`, in order.
pub open spec fn request_views(requests: Seq<PositionRequest>) -> Seq<RequestView> {
    Seq::new(requests.len(), |i: int| requests[i]@)
}

/// What is wrong with the argument at `position`, where it stands for a
/// display number (first of each three) or for a coordinate (the other two).
pub open spec fn fault_at(args: Seq<Seq<char>>, position: int) -> Option<ArgError> {
    if position % 3 == 0 {
        match u32_value(args[position]) {
            None => Some(ArgError::Malformed { position: position as usize }),
            Some(n) => if n == 0 {
                Some(ArgError::DisplayZero { position: position as usize })
            } else {
                None
            },
        }
    } else {
        match i32_value(args[position]) {
            None => Some(ArgError::Malformed { position: position as usize }),
            Some(_) => None,
        }
    }
}

/// The fault of the first faulty argument among the first `upto`.
pub open spec fn first_fault(args: Seq<Seq<char>>, upto: int) -> Option<ArgError>
    decreases upto,
{
    if upto <= 0 {
        None
    } else {
        match first_fault(args, upto - 1) {
            Some(fault) => Some(fault),
            None => fault_at(args, upto - 1),
        }
    }
}

/// The number of arguments that stand in complete groups of three. The one
/// or two that may follow belong to no request and are not looked at.
pub open spec fn grouped_len(args: Seq<Seq<char>>) -> int {
    3 * (args.len() as int / 3)
}

/// The request that the three arguments of group `k` write.
pub open spec fn request_at(args: Seq<Seq<char>>, k: int) -> RequestView {
    RequestView {
        display: u32_value(args[3 * k]).unwrap(),
        x: i32_value(args[3 * k + 1]).unwrap(),
        y: i32_value(args[3 * k + 2]).unwrap(),
    }
}

/// The position requests that `args` write, one for each complete group of
/// three in the order given, or the first fault among the grouped arguments.
pub open spec fn requests_of(args: Seq<Seq<char>>) -> Result<Seq<RequestView>, ArgError> {
    match first_fault(args, grouped_len(args)) {
        Some(fault) => Err(fault),
        None => Ok(Seq::new((args.len() / 3) as nat, |k: int| request_at(args, k))),
    }
}

/// `first_fault` is `None` exactly where no argument before `upto` has a
/// fault; otherwise it is the fault of the first argument that has one.
pub proof fn lemma_first_fault(args: Seq<Seq<char>>, upto: int)
    ensures
        first_fault(args, upto) is None <==> forall|p: int|
            0 <= p < upto ==> (#[trigger] fault_at(args, p)) is None,
        first_fault(args, upto) matches Some(fault) ==> exists|p: int|
            0 <= p < upto && #[trigger] fault_at(args, p) == Some(fault) && forall|q: int|
                0 <= q < p ==> (#[trigger] fault_at(args, q)) is None,
    decreases upto,
{
    if upto > 0 {
        lemma_first_fault(args, upto - 1);
        if first_fault(args, upto - 1) is None {
            if let Some(fault) = fault_at(args, upto - 1) {
                assert(fault_at(args, upto - 1) == Some(fault) && forall|q: int|
                    0 <= q < upto - 1 ==> (#[trigger] fault_at(args, q)) is None);
            }
        }
    }
}

/// A first fault stays the first, however many arguments follow.
proof fn lemma_fault_stays_first(args: Seq<Seq<char>>, found: int, upto: int)
    requires
        found <= upto,
        first_fault(args, found) is Some,
    ensures
        first_fault(args, upto) == first_fault(args, found),
    decreases upto,
{
    if upto > found {
        lemma_fault_stays_first(args, found, upto - 1);
    }
}

/// What the three arguments of group `k` give: the request that they write,
/// or the fault of the first of them that has one.
pub open spec fn group_result(args: Seq<Seq<char>>, k: int) -> Result<RequestView, ArgError> {
    if let Some(fault) = fault_at(args, 3 * k) {
        Err(fault)
    } else if let Some(fault) = fault_at(args, 3 * k + 1) {
        Err(fault)
    } else if let Some(fault) = fault_at(args, 3 * k + 2) {
        Err(fault)
    } else {
        Ok(request_at(args, k))
    }
}

/// With no fault before group `k`, the first fault up to the end of the
/// group is the fault of the group, if it has one.
proof fn lemma_group_step(args: Seq<Seq<char>>, k: int)
    requires
        0 <= k,
        first_fault(args, 3 * k) is None,
    ensures
        first_fault(args, 3 * k + 3) == match group_result(args, k) {
            Ok(_) => None,
            Err(fault) => Some(fault),
        },
{
    reveal_with_fuel(first_fault, 4);
}

/// Reads the three arguments of group `k`.
fn parse_group(args: &[String], k: usize) -> (parsed: Result<PositionRequest, ArgError>)
    requires
        3 * k + 2 < args@.len() <= usize::MAX,
    ensures
        match parsed {
            Ok(request) => group_result(texts(args@), k as int) == Ok::<_, ArgError>(request@),
            Err(fault) => group_result(texts(args@), k as int) == Err::<RequestView, _>(fault),
        },
{
    let base: usize = 3 * k;
    assert(base % 3 == 0 && (base + 1) % 3 == 1 && (base + 2) % 3 == 2) by (nonlinear_arith)
        requires
            base == 3 * k,
    ;
    let display: u32 = match parse_u32(args[base].as_str()) {
        Some(n) => n,
        None => {
            return Err(ArgError::Malformed { position: base });
        },
    };
    if display == 0 {
        return Err(ArgError::DisplayZero { position: base });
    }
    let x: i32 = match parse_i32(args[base + 1].as_str()) {
        Some(n) => n,
        None => {
            return Err(ArgError::Malformed { position: base + 1 });
        },
    };
    let y: i32 = match parse_i32(args[base + 2].as_str()) {
        Some(n) => n,
        None => {
            return Err(ArgError::Malformed { position: base + 2 });
        },
    };
    Ok(PositionRequest { display, x, y })
}

/// Reads position requests from `args`: one from each complete group of
/// three arguments, in the order given. One or two arguments left over at the
/// end are ignored. Nothing is returned unless every grouped argument is in
/// order: the first that is not is named in the error.
pub fn parse_requests(args: &[String]) -> (parsed: Result<Vec<PositionRequest>, ArgError>)
    ensures
        match parsed {
            Ok(requests) => requests_of(texts(args@)) == Ok::<_, ArgError>(
                request_views(requests@),
            ),
            Err(fault) => requests_of(texts(args@)) == Err::<Seq<RequestView>, _>(fault),
        },
        parsed matches Ok(requests) ==> requests@.len() == args@.len() / 3 && forall|k: int|
            0 <= k < requests@.len() ==> (#[trigger] requests@[k])@ == request_at(
                texts(args@),
                k,
            ),
{
    let groups: usize = args.len() / 3;
    let ghost t = texts(args@);
    let mut requests: Vec<PositionRequest> = Vec::new();
    let mut k: usize = 0;
    while k < groups
        invariant
            t == texts(args@),
            groups == args@.len() / 3,
            3 * groups <= args@.len() <= usize::MAX,
            0 <= k <= groups,
            first_fault(t, 3 * k) is None,
            requests@.len() == k,
            forall|j: int| 0 <= j < k ==> (#[trigger] requests@[j])@ == request_at(t, j),
        decreases groups - k,
    {
        proof {
            lemma_group_step(t, k as int);
        }
        match parse_group(args, k) {
            Ok(request) => requests.push(request),
            Err(fault) => {
                proof {
                    lemma_fault_stays_first(t, 3 * k + 3, grouped_len(t));
                }
                return Err(fault);
            },
        }
        k += 1;
    }
    assert(request_views(requests@) =~= Seq::new(
        (args@.len() / 3) as nat,
        |k: int| request_at(t, k),
    ));
    Ok(requests)
}

/// One of the three operations that a command line can ask for.
#[derive(Clone, Debug, PartialEq, Eq)]
pub enum Command {
    /// Show how the program is used.
    Help,
    /// List the displays: all that are enumerated, or only those that are
    /// part of the desktop.
    List { show_all: bool },
    /// Carry out the position requests in the order given.
    Apply { requests: Vec<PositionRequest> },
}

/// What a [`Command`] holds, as mathematical values.
pub ghost enum CommandView {
    Help,
    List { show_all: bool },
    Apply { requests: Seq<RequestView> },
}

impl View for Command {
    type V = CommandView;

    open spec fn view(&self) -> CommandView {
        match self {
            Command::Help => CommandView::Help,
            Command::List { show_all } => CommandView::List { show_all: *show_all },
            Command::Apply { requests } => CommandView::Apply {
                requests: request_views(requests@),
            },
        }
    }
}

/// Whether `args` ask for help: there are none, or the first is `/H` or
/// `/?`.
pub open spec fn asks_for_help(args: Seq<Seq<char>>) -> bool {
    args.len() == 0 || same_ignoring_case(args[0], "/H"@) || same_ignoring_case(args[0], "/?"@)
}

/// Whether the first of `args` is `/L`.
pub open spec fn asks_for_list(args: Seq<Seq<char>>) -> bool {
    args.len() > 0 && same_ignoring_case(args[0], "/L"@)
}

/// Whether the second of `args` is `/A`.
pub open spec fn asks_for_all(args: Seq<Seq<char>>) -> bool {
    args.len() > 1 && same_ignoring_case(args[1], "/A"@)
}

/// The operation that `args` ask for. Whatever does not begin with one of
/// the options is read as position requests.
pub open spec fn command_of(args: Seq<Seq<char>>) -> Result<CommandView, ArgError> {
    if asks_for_help(args) {
        Ok(CommandView::Help)
    } else if asks_for_list(args) {
        Ok(CommandView::List { show_all: asks_for_all(args) })
    } else {
        match requests_of(args) {
            Ok(requests) => Ok(CommandView::Apply { requests }),
            Err(fault) => Err(fault),
        }
    }
}

/// Reads the arguments of the program, its own name left out, as a command.
/// The options are taken in capital or small letters.
pub fn interpret(args: &[String]) -> (command: Result<Command, ArgError>)
    ensures
        match command {
            Ok(c) => command_of(texts(args@)) == Ok::<_, ArgError>(c@),
            Err(fault) => command_of(texts(args@)) == Err::<CommandView, _>(fault),
        },
{
    if args.len() == 0 {
        return Ok(Command::Help);
    }
    let first: &str = args[0].as_str();
    if matches_token(first, "/H") || matches_token(first, "/?") {
        return Ok(Command::Help);
    }
    if matches_token(first, "/L") {
        let show_all: bool = args.len() > 1 && matches_token(args[1].as_str(), "/A");
        return Ok(Command::List { show_all });
    }
    match parse_requests(args) {
        Ok(requests) => Ok(Command::Apply { requests }),
        Err(fault) => Err(fault),
    }
}

} // verus!
