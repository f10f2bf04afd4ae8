pub mod block;
pub mod buffer;
pub mod context;
pub mod editing;
pub mod expression;
pub mod function;
pub mod ident;
pub mod laws;
pub mod line;
pub mod node;
pub mod object;
pub mod project;
pub mod value;
pub mod variable;
