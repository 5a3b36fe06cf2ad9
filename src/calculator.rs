use vstd::prelude::*;

verus! {

/// The four operations the calculator offers.
#[derive(Clone, Copy, Debug, PartialEq, Eq, Structural)]
pub enum Operation {
    Add,
    Subtract,
    Multiply,
    Divide,
}

/// Why the calculator refuses a request.
#[derive(Clone, Copy, Debug, PartialEq, Eq, Structural)]
pub enum CalcError {
    /// The operation name is none of the four.
    InvalidOperation,
    /// A division whose divisor is exactly zero.
    DivideByZero,
}

/// The operation that a form's operation name selects, if any.
pub open spec fn operation_of(name: Seq<char>) -> Option<Operation> {
    if name == "add"@ {
        Some(Operation::Add)
    } else if name == "subtract"@ {
        Some(Operation::Subtract)
    } else if name == "multiply"@ {
        Some(Operation::Multiply)
    } else if name == "divide"@ {
        Some(Operation::Divide)
    } else {
        None
    }
}

/// What the calculator does for an operation name and a divisor that is, or is
/// not, exactly zero: an unknown name is refused first, then a division by zero.
pub open spec fn plan(name: Seq<char>, divisor_is_zero: bool) -> Result<Operation, CalcError> {
    match operation_of(name) {
        None => Err(CalcError::InvalidOperation),
        Some(op) => if op == Operation::Divide && divisor_is_zero {
            Err(CalcError::DivideByZero)
        } else {
            Ok(op)
        },
    }
}

/// The message sent with each refusal.
pub open spec fn error_text(e: CalcError) -> Seq<char> {
    match e {
        CalcError::InvalidOperation => "Operación no válida"@,
        CalcError::DivideByZero => "Error: No se puede dividir por cero"@,
    }
}

/// The text that announces a result, before the result itself.
pub open spec fn result_prefix() -> Seq<char> {
    "El resultado de la operacion es: "@
}

/// Looks up an operation by its form name.
pub fn parse_operation(name: &str) -> (r: Option<Operation>)
    ensures
        r == operation_of(name@),
{
    let owned = name.to_owned();
    if owned == String::from_str("add") {
        Some(Operation::Add)
    } else if owned == String::from_str("subtract") {
        Some(Operation::Subtract)
    } else if owned == String::from_str("multiply") {
        Some(Operation::Multiply)
    } else if owned == String::from_str("divide") {
        Some(Operation::Divide)
    } else {
        None
    }
}

/// Decides a calculator request: the operation to apply, or why none is.
/// `divisor_is_zero` tells whether the second operand equals zero exactly.
pub fn calculate(operation: &str, divisor_is_zero: bool) -> (r: Result<Operation, CalcError>)
    ensures
        r == plan(operation@, divisor_is_zero),
{
    match parse_operation(operation) {
        None => Err(CalcError::InvalidOperation),
        Some(Operation::Divide) => if divisor_is_zero {
            Err(CalcError::DivideByZero)
        } else {
            Ok(Operation::Divide)
        },
        Some(op) => Ok(op),
    }
}

impl CalcError {
    /// The message for the user.
    pub fn message(&self) -> (r: String)
        ensures
            r@ == error_text(*self),
    {
        match self {
            CalcError::InvalidOperation => String::from_str("Operación no válida"),
            CalcError::DivideByZero => String::from_str("Error: No se puede dividir por cero"),
        }
    }
}

/// The message that announces a result, written out as `rendered`.
pub fn result_message(rendered: &str) -> (r: String)
    ensures
        r@ == result_prefix() + rendered@,
{
    let mut r = String::from_str("El resultado de la operacion es: ");
    r.append(rendered);
    r
}

} // verus!
