//! The decisions of a launcher for Java Web Start applications.
//!
//! The launcher finds a Java runtime, finds the jars of the application framework, and
//! composes the arguments with which the virtual machine is started. This library holds
//! every decision of that work. The decisions do not read the environment, do not look
//! at the disk and start no process: what they have to know about the machine they ask
//! for, one question at a time (see [`facts`]), and what they have to say they note in a
//! journal (see [`journal`]). The program around the library answers the questions, prints
//! the notes and starts the virtual machine; the questions that a look at the disk
//! answers it can pass on to [`disk`].
//!
//! The search for the runtime is in [`utils`], the search for the jars and the class paths
//! in [`jars_helper`], the arguments in [`launch`].

pub mod dirs_paths_helper;
pub mod disk;
pub mod facts;
pub mod hardcoded_paths;
pub mod jars_helper;
pub mod journal;
pub mod launch;
pub mod log_helper;
pub mod os_access;
pub mod paths;
pub mod property;
pub mod property_from_file;
pub mod property_from_files_resolver;
pub mod registry;
pub mod text;
pub mod utils;
