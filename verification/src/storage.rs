//! The values that the session exchanges with the device directory and with the
//! settings store.

use vstd::prelude::*;

verus! {

/// A storage device of the machine. Its name is all that tells it from the others.
#[derive(Debug, PartialEq, Eq)]
pub struct StorageDevice {
    pub name: String,
}

impl View for StorageDevice {
    type V = Seq<char>;

    /// A device stands for its name.
    open spec fn view(&self) -> Seq<char> {
        self.name@
    }
}

impl DeepView for StorageDevice {
    type V = Seq<char>;

    open spec fn deep_view(&self) -> Seq<char> {
        self.name@
    }
}

impl Clone for StorageDevice {
    fn clone(&self) -> (copy: Self)
        ensures
            copy@ == self@,
    {
        StorageDevice { name: self.name.clone() }
    }
}

/// The storage settings, as the settings store keeps them.
#[derive(Debug, PartialEq, Eq)]
pub struct StorageSettings {
    /// The name of the device to boot from, where one was chosen.
    pub boot_device: Option<String>,
}

impl View for StorageSettings {
    type V = Option<Seq<char>>;

    /// The settings stand for the name of the boot device, where they hold one.
    open spec fn view(&self) -> Option<Seq<char>> {
        match self.boot_device {
            Some(name) => Some(name@),
            None => None,
        }
    }
}

impl Clone for StorageSettings {
    fn clone(&self) -> (copy: Self)
        ensures
            copy@ == self@,
    {
        match &self.boot_device {
            Some(name) => StorageSettings { boot_device: Some(name.clone()) },
            None => StorageSettings { boot_device: None },
        }
    }
}

impl Default for StorageSettings {
    /// Settings in which no boot device is chosen.
    fn default() -> (settings: Self)
        ensures
            settings@ == None::<Seq<char>>,
    {
        StorageSettings { boot_device: None }
    }
}

} // verus!
