use vstd::prelude::*;

verus! {

/// The name under which the element is registered and created.
pub const ELEMENT_NAME: &'static str = "videopipesink";

/// Name of the property that holds the shell command line.
pub const PROPERTY_CMD: &'static str = "cmd";

/// Name of the property that holds the grace period in nanoseconds.
pub const PROPERTY_WAIT_FOR_EXIT: &'static str = "wait-for-exit";

/// Everything a media framework needs to register the element.
#[derive(Clone, Copy, Debug)]
pub struct ElementRegistration {
    pub name: &'static str,
    /// Rank for automatic selection; none, as the element needs a command.
    pub rank: u32,
    pub long_name: &'static str,
    pub classification: &'static str,
    pub description: &'static str,
    pub author: &'static str,
}

/// The registration of the sink element: its name, rank and metadata.
pub fn register_element() -> (r: ElementRegistration)
    ensures
        r.name@ == ELEMENT_NAME@,
        r.rank == 0,
        r.long_name@ == "Vide Pipe Sink"@,
        r.classification@ == "Sink/Video"@,
        r.description@ == "Pipes raw video frames to a provided subprocess"@,
        r.author@ == "Rafael Caricio <rafael@caricio.com>"@,
{
    ElementRegistration {
        name: ELEMENT_NAME,
        rank: 0,
        long_name: "Vide Pipe Sink",
        classification: "Sink/Video",
        description: "Pipes raw video frames to a provided subprocess",
        author: "Rafael Caricio <rafael@caricio.com>",
    }
}

} // verus!
