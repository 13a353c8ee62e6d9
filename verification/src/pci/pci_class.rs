//! The semantic category of a PCI function, decoded from the class byte
//! of its configuration space.

use vstd::prelude::*;
use vstd::string::StringExecFns;

verus! {

/// The fixed table of PCI device categories this crate knows.  Class
/// bytes outside the table are undefined here and decode to nothing.
#[derive(Debug, Clone, Copy, PartialEq, Eq, Structural)]
pub enum PCIClass {
    Unclassified,
    MassStorage,
    Network,
    Display,
    Multimedia,
    Memory,
    BridgeDevice,
    Simple,
    BasePeripheral,
    InputDevice,
    Dock,
    Processor,
    SerialBus,
    Wireless,
    IntelligentController,
    Satellite,
    Encryption,
    SignalProcessing,
    ProcessingAccelerator,
    NonEssential,
    CoProcessor,
    Unassigned,
}

/// The category a class byte decodes to, if any.
pub open spec fn spec_class_of(class: u8) -> Option<PCIClass> {
    if class == 0x00 {
        Some(PCIClass::Unclassified)
    } else if class == 0x01 {
        Some(PCIClass::MassStorage)
    } else if class == 0x02 {
        Some(PCIClass::Network)
    } else if class == 0x03 {
        Some(PCIClass::Display)
    } else if class == 0x04 {
        Some(PCIClass::Multimedia)
    } else if class == 0x05 {
        Some(PCIClass::Memory)
    } else if class == 0x06 {
        Some(PCIClass::BridgeDevice)
    } else if class == 0x07 {
        Some(PCIClass::Simple)
    } else if class == 0x08 {
        Some(PCIClass::BasePeripheral)
    } else if class == 0x09 {
        Some(PCIClass::InputDevice)
    } else if class == 0x0A {
        Some(PCIClass::Dock)
    } else if class == 0x0B {
        Some(PCIClass::Processor)
    } else if class == 0x0C {
        Some(PCIClass::SerialBus)
    } else if class == 0x0D {
        Some(PCIClass::Wireless)
    } else if class == 0x0E {
        Some(PCIClass::IntelligentController)
    } else if class == 0x0F {
        Some(PCIClass::Satellite)
    } else if class == 0x10 {
        Some(PCIClass::Encryption)
    } else if class == 0x11 {
        Some(PCIClass::SignalProcessing)
    } else if class == 0x12 {
        Some(PCIClass::ProcessingAccelerator)
    } else if class == 0x13 {
        Some(PCIClass::NonEssential)
    } else if class == 0x40 {
        Some(PCIClass::CoProcessor)
    } else {
        None
    }
}

impl PCIClass {
    /// Decodes a class byte.  Bytes outside the fixed table yield
    /// nothing; the caller decides how to treat an unknown category.
    pub fn from(class: u8) -> (r: Option<PCIClass>)
        ensures
            r == spec_class_of(class),
    {
        match class {
            0x00 => Some(PCIClass::Unclassified),
            0x01 => Some(PCIClass::MassStorage),
            0x02 => Some(PCIClass::Network),
            0x03 => Some(PCIClass::Display),
            0x04 => Some(PCIClass::Multimedia),
            0x05 => Some(PCIClass::Memory),
            0x06 => Some(PCIClass::BridgeDevice),
            0x07 => Some(PCIClass::Simple),
            0x08 => Some(PCIClass::BasePeripheral),
            0x09 => Some(PCIClass::InputDevice),
            0x0A => Some(PCIClass::Dock),
            0x0B => Some(PCIClass::Processor),
            0x0C => Some(PCIClass::SerialBus),
            0x0D => Some(PCIClass::Wireless),
            0x0E => Some(PCIClass::IntelligentController),
            0x0F => Some(PCIClass::Satellite),
            0x10 => Some(PCIClass::Encryption),
            0x11 => Some(PCIClass::SignalProcessing),
            0x12 => Some(PCIClass::ProcessingAccelerator),
            0x13 => Some(PCIClass::NonEssential),
            0x40 => Some(PCIClass::CoProcessor),
            _ => None,
        }
    }

    /// The category's name as it appears in the diagnostic report.
    pub open spec fn spec_name(&self) -> Seq<char> {
        match *self {
            PCIClass::Unclassified => "Unclassified"@,
            PCIClass::MassStorage => "MassStorage"@,
            PCIClass::Network => "Network"@,
            PCIClass::Display => "Display"@,
            PCIClass::Multimedia => "Multimedia"@,
            PCIClass::Memory => "Memory"@,
            PCIClass::BridgeDevice => "BridgeDevice"@,
            PCIClass::Simple => "Simple"@,
            PCIClass::BasePeripheral => "BasePeripheral"@,
            PCIClass::InputDevice => "InputDevice"@,
            PCIClass::Dock => "Dock"@,
            PCIClass::Processor => "Processor"@,
            PCIClass::SerialBus => "SerialBus"@,
            PCIClass::Wireless => "Wireless"@,
            PCIClass::IntelligentController => "IntelligentController"@,
            PCIClass::Satellite => "Satellite"@,
            PCIClass::Encryption => "Encryption"@,
            PCIClass::SignalProcessing => "SignalProcessing"@,
            PCIClass::ProcessingAccelerator => "ProcessingAccelerator"@,
            PCIClass::NonEssential => "NonEssential"@,
            PCIClass::CoProcessor => "CoProcessor"@,
            PCIClass::Unassigned => "Unassigned"@,
        }
    }

    /// Renders the category's name.
    pub fn name(&self) -> (s: String)
        ensures
            s@ == self.spec_name(),
    {
        match *self {
            PCIClass::Unclassified => "Unclassified".to_owned(),
            PCIClass::MassStorage => "MassStorage".to_owned(),
            PCIClass::Network => "Network".to_owned(),
            PCIClass::Display => "Display".to_owned(),
            PCIClass::Multimedia => "Multimedia".to_owned(),
            PCIClass::Memory => "Memory".to_owned(),
            PCIClass::BridgeDevice => "BridgeDevice".to_owned(),
            PCIClass::Simple => "Simple".to_owned(),
            PCIClass::BasePeripheral => "BasePeripheral".to_owned(),
            PCIClass::InputDevice => "InputDevice".to_owned(),
            PCIClass::Dock => "Dock".to_owned(),
            PCIClass::Processor => "Processor".to_owned(),
            PCIClass::SerialBus => "SerialBus".to_owned(),
            PCIClass::Wireless => "Wireless".to_owned(),
            PCIClass::IntelligentController => "IntelligentController".to_owned(),
            PCIClass::Satellite => "Satellite".to_owned(),
            PCIClass::Encryption => "Encryption".to_owned(),
            PCIClass::SignalProcessing => "SignalProcessing".to_owned(),
            PCIClass::ProcessingAccelerator => "ProcessingAccelerator".to_owned(),
            PCIClass::NonEssential => "NonEssential".to_owned(),
            PCIClass::CoProcessor => "CoProcessor".to_owned(),
            PCIClass::Unassigned => "Unassigned".to_owned(),
        }
    }
}

impl core::default::Default for PCIClass {
    /// The default category is the unclassified one.
    fn default() -> (r: Self)
        ensures
            r == PCIClass::Unclassified,
    {
        PCIClass::Unclassified
    }
}

} // verus!
