//! The tool's actions: output decoding, CPU and microcode checks, known
//! fixes, power plans, system information and maintenance jobs.
pub mod decode;
pub mod cpu;
pub mod guid;
pub mod power;
pub mod turbo;
pub mod fixes;
pub mod script;
pub mod jobs;
pub mod iso;
pub mod osinfo;
pub mod stream;
pub mod logs;
