//! Small verified building blocks: integer helpers, a growable list of
//! integers, a tagged value with checked arithmetic, and a table of state
//! capitals.
pub mod basics;
pub mod capitals;
pub mod value;

pub use basics::{append, exists_in, first_of, increment, is_positive};
pub use capitals::{get_capital_for_state, UnknownState};
pub use value::{add_values, is_number, sqrt, EvalError, Value};
