//! A parameterised SQL statement builder: trusted text fragments are composed
//! together with positional argument values, and the final statement is
//! rendered with generic `?` markers or numbered `$n` markers.

pub mod buffer;
pub mod expr;
pub mod query;
pub mod text;
pub mod types;

pub use buffer::{trusted, QueryBuffer, TrustedString};
pub use expr::{expr, in_expr, Connective, Expr};
pub use query::{query, ArgFormat, Having, Query, Raw, Suffixed, Where};
pub use types::Type;
