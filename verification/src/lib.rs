//! Actors whose behaviour is written in Lua.
//!
//! A [`LuaActor`] owns one interpreter. Its host starts it, hands it the
//! messages of its mailbox one at a time and stops it; each invocation gives a
//! [`LuaMessage`] in reply and the [`Effect`]s that the script asked for, which
//! the host carries out. A script that asks another actor for a reply is
//! suspended, and goes on when the host brings the reply.
//!
//! ```ignore
//! let mut actor: LuaActor<Address> = LuaActorBuilder::new()
//!     .on_handle_with_lua(r#"return ctx.msg + 42"#)
//!     .build()?;
//! actor.started()?;
//! let turn = actor.handle(LuaMessage::from(1))?;
//! assert_eq!(turn.reply, LuaMessage::from(43));
//! ```
//!
//! # How a script reaches its host
//!
//! Through its `ctx` alone: `ctx.msg`, `ctx.state`, `ctx.notify(msg)`,
//! `ctx.notify_later(msg, seconds)`, `ctx.do_send(name, msg)`,
//! `ctx.send(name, msg)`, `ctx.terminate()` and `ctx.new_actor(script, name)`.
//! These work for the length of one invocation; kept beyond it they raise an
//! error. The function of the host behind them, the entry points of the
//! prelude and its count of continuations are out of a script's reach.
//!
//! # What a script can hand to its host
//!
//! A script hands over nil, booleans, integers, numbers, strings that are
//! UTF-8, and tables of these. Table keys become strings: a string stays as it
//! is, an integer is written in decimal, a number with a fraction is written
//! as the interpreter itself writes it. A function, a coroutine or a userdata
//! cannot be handed over.
//!
//! An entry whose value is nil is no entry to the interpreter: a message
//! table with such an entry comes back from a script without it.
//!
//! Tables that do not hold themselves are copied out whole as long as they
//! are nested no deeper than [`driver::NESTING_LIMIT`], which is 200. A limit
//! there has to be: a script can make a table that holds itself, which no
//! message can stand for, and copying that out would never end; from the
//! outside such a table cannot be told from one that is merely deep. The limit is the interpreter's own for nesting
//! in the text of a program, so no table that a script writes out as a
//! literal goes beyond it; a table nested deeper, built step by step, is
//! refused like a script error. Messages on the host's side, and on their way
//! into a script, may be nested to any depth. Tables may be of any size.
//!
//! The modules, from the ground up:
//!
//! - [`message`], [`equality`]: the message and what it says.
//! - [`value`], [`convert`], [`decimal`]: the interpreter's values as plain
//!   data, and how a message is written out for the interpreter and read back.
//! - [`registry`]: the book of the continuations that wait for a reply.
//! - [`effect`], [`request`], [`bridge`]: what a script can ask of its host,
//!   and the bridge that takes it during one invocation.
//! - [`vm`], [`driver`], [`lua_prelude`], [`protocol`]: the interpreter
//!   itself, one call into it, the program that it runs first, and what the
//!   host calls that program with and makes of its answers.
//! - [`directory`], [`actor`], [`builder`]: the actor, those it knows by
//!   name, and how it is made.
pub mod actor;
pub mod bridge;
pub mod builder;
pub mod convert;
pub mod decimal;
pub mod directory;
pub mod driver;
pub mod effect;
pub mod equality;
pub mod error;
pub mod lua_prelude;
pub mod message;
pub mod protocol;
pub mod registry;
pub mod request;
pub mod value;
pub mod vm;

pub use crate::actor::{LuaActor, Phase, Stage, Turn};
pub use crate::effect::{Effect, SendAttempt, SendAttemptResult};
pub use crate::builder::LuaActorBuilder;
pub use crate::convert::ConversionError;
pub use crate::error::{InvokeError, LuaError};
pub use crate::message::LuaMessage;
pub use crate::value::ScriptValue;
