//! The names of the events that the pipeline publishes.

use vstd::prelude::*;

verus! {

// Stream events
pub const STREAM_START: &'static str = "stream.start";
pub const STREAM_TOKEN: &'static str = "stream.token";
pub const STREAM_ERROR: &'static str = "stream.error";
pub const STREAM_RETRY: &'static str = "stream.retry";
pub const STREAM_END: &'static str = "stream.end";

// Loop events
pub const LOOP_START: &'static str = "loop.start";
pub const LOOP_COMPLETE: &'static str = "loop.complete";
pub const LOOP_TURN_START: &'static str = "loop.turn_start";
pub const LOOP_TURN_END: &'static str = "loop.turn_end";
pub const LOOP_TOOL_START: &'static str = "loop.tool_start";
pub const LOOP_TOOL_END: &'static str = "loop.tool_end";
pub const LOOP_DOOM_LOOP: &'static str = "loop.doom_loop";
pub const LOOP_COMPACTION: &'static str = "loop.compaction";

// Library events
pub const LIBRARY_SEARCH: &'static str = "library.search";
pub const LIBRARY_STORE: &'static str = "library.store";
pub const LIBRARY_DELETE: &'static str = "library.delete";
pub const LIBRARY_RECOMMEND: &'static str = "library.recommend";
pub const LIBRARY_COMPENDIUM: &'static str = "library.compendium";
pub const LIBRARY_CLASSIFY: &'static str = "library.classify";
pub const LIBRARY_DEDUPLICATE: &'static str = "library.deduplicate";
pub const LIBRARY_ORGANIZE: &'static str = "library.organize";
pub const LIBRARY_EXPORT: &'static str = "library.export";

// Chain events
pub const CHAIN_START: &'static str = "chain.start";
pub const CHAIN_STEP: &'static str = "chain.step";
pub const CHAIN_END: &'static str = "chain.end";
pub const CHAIN_ERROR: &'static str = "chain.error";

// Task events
pub const TASK_CREATE: &'static str = "task.create";
pub const TASK_UPDATE: &'static str = "task.update";
pub const TASK_DELETE: &'static str = "task.delete";

// Conversation events
pub const CONVERSATION_ADD: &'static str = "conversation.add";
pub const CONVERSATION_COMPACT: &'static str = "conversation.compact";

} // verus!
