//! Native side of the documentation-screenshot commands: where screenshots
//! go, and what a request to copy one decides at each step. The filesystem
//! work itself is done by the caller, which hands each outcome back here.
pub mod paths;
pub mod resolver;
pub mod copier;
