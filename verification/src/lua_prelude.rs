use vstd::prelude::*;

verus! {

/// The program that every interpreter of an actor runs first.
///
/// It returns its three entry points in a table, which the host keeps where
/// no script reaches it: `load` takes a phase's source and raises what the
/// compiler says where it is no program; `run` runs a phase as a coroutine,
/// in an environment that shows the globals and a `ctx` of its own; `resume`
/// goes on with a suspended coroutine. `run` and `resume` take the host's
/// bridge function first. They return the result of a coroutine that has
/// ended, and `nil` and the identifier of one that has suspended in a
/// `ctx.send`.
///
/// The prelude keeps the source of each phase and a table of state for each,
/// and the suspended coroutines under their identifiers, which it counts up
/// from 1. A script gets at the bridge through the functions of its `ctx`
/// alone, each of which hands on a fixed number of values; the bridge function
/// itself, the entry points and the counter are out of its reach.
pub const PRELUDE: &'static str = r#"
local create, resume, status, yield =
    coroutine.create, coroutine.resume, coroutine.status, coroutine.yield
local load, setmetatable, error, tostring, tointeger, globals =
    load, setmetatable, error, tostring, math.tointeger, _G

local scripts = {}
local states = {}
local threads = {}
local sequence = 0

local function context(cell, phase, msg)
    local ctx = { msg = msg, state = states[phase] }
    ctx.notify = function(m)
        return cell.bridge("notify", m)
    end
    ctx.notify_later = function(m, seconds)
        return cell.bridge("notify_later", m, tointeger(seconds))
    end
    ctx.do_send = function(recipient_name, m)
        return cell.bridge("do_send", recipient_name, m)
    end
    ctx.send = function(recipient_name, m)
        local id = sequence + 1
        cell.bridge("send", recipient_name, m, id)
        sequence = id
        return yield(id)
    end
    ctx.terminate = function()
        return cell.bridge("terminate")
    end
    ctx.new_actor = function(script, name)
        return cell.bridge("new_actor", script, name)
    end
    return ctx
end

local function settle(cell, ok, ...)
    if not ok then
        error((...), 0)
    end
    if status(cell.thread) == "suspended" then
        local id = (...)
        threads[id] = cell
        return nil, id
    end
    return (...)
end

local entries = {}

function entries.load(source, phase)
    local chunk, problem = load(source, "=" .. phase, "t", {})
    if not chunk then
        error(problem, 0)
    end
    scripts[phase] = source
    states[phase] = {}
end

function entries.run(bridge, phase, msg)
    local source = scripts[phase]
    if not source then
        return nil
    end
    local cell = { bridge = bridge }
    local env = setmetatable({ ctx = context(cell, phase, msg) }, { __index = globals })
    cell.thread = create(load(source, "=" .. phase, "t", env))
    return settle(cell, resume(cell.thread))
end

function entries.resume(bridge, id, reply)
    local cell = threads[id]
    if not cell then
        error("no continuation " .. tostring(id), 0)
    end
    threads[id] = nil
    cell.bridge = bridge
    return settle(cell, resume(cell.thread, reply))
end

return entries
"#;

} // verus!
