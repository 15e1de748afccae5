use vstd::prelude::*;
use crate::hex::spec_decimal_digits;

verus! {

/// The controller that a J1939 address byte stands for.
#[derive(Debug, Clone, Copy, PartialEq, Eq, Structural)]
pub enum Address {
    PrimaryEngineController,
    SecondaryEngineController,
    PrimaryTransmissionController,
    TransmissionShiftSelector,
    Brakes,
    Retarder,
    CruiseControl,
    FuelSystem,
    SteeringController,
    InstrumentCluster,
    ClimateControl1,
    Compass,
    BodyController,
    OffVehicleGateway,
    DidVid,
    RetarderExhaustEngine1,
    HeadwayController,
    Suspension,
    CabController,
    TirePressureController,
    LightingControlModule,
    ClimateControl2,
    ExhaustEmissionController,
    AuxiliaryHeater,
    ChassisController,
    CommunicationsUnit,
    Radio,
    SafetyRestraintSystem,
    AftertreatmentControlModule,
    MultiPurposeCamera,
    SwitchExpansionModule,
    AuxiliaryGaugeSwitchPack,
    Iteris,
    QualcommPeopleNetTranslatorBox,
    StandAloneRealTimeClock,
    CenterPanel1,
    CenterPanel2,
    CenterPanel3,
    CenterPanel4,
    CenterPanel5,
    WabcoOnGuardRadar,
    SecondaryInstrumentCluster,
    OffboardDiagnostics,
    Trailer3Bridge,
    Trailer2Bridge,
    Trailer1Bridge,
    SafetyDirectProcessor,
    ForwardRoadImageProcessor,
    LeftRearDoorPod,
    RightRearDoorPod,
    DoorController1,
    DoorController2,
    Tachograph,
    HybridSystem,
    AuxiliaryPowerUnit,
    ServiceTool,
    SourceAddressRequest0,
    SourceAddressRequest1,
    Unknown(u8),
}

impl Address {
    /// The controller that an address byte stands for; a byte that stands
    /// for none is kept as unknown.
    pub open spec fn spec_from_u8(value: u8) -> Address {
        if value == 0 {
            Address::PrimaryEngineController
        } else if value == 1 {
            Address::SecondaryEngineController
        } else if value == 3 {
            Address::PrimaryTransmissionController
        } else if value == 5 {
            Address::TransmissionShiftSelector
        } else if value == 11 {
            Address::Brakes
        } else if value == 15 {
            Address::Retarder
        } else if value == 17 {
            Address::CruiseControl
        } else if value == 18 {
            Address::FuelSystem
        } else if value == 19 {
            Address::SteeringController
        } else if value == 23 {
            Address::InstrumentCluster
        } else if value == 25 {
            Address::ClimateControl1
        } else if value == 28 {
            Address::Compass
        } else if value == 33 {
            Address::BodyController
        } else if value == 37 {
            Address::OffVehicleGateway
        } else if value == 40 {
            Address::DidVid
        } else if value == 41 {
            Address::RetarderExhaustEngine1
        } else if value == 42 {
            Address::HeadwayController
        } else if value == 47 {
            Address::Suspension
        } else if value == 49 {
            Address::CabController
        } else if value == 51 {
            Address::TirePressureController
        } else if value == 55 {
            Address::LightingControlModule
        } else if value == 58 {
            Address::ClimateControl2
        } else if value == 61 {
            Address::ExhaustEmissionController
        } else if value == 69 {
            Address::AuxiliaryHeater
        } else if value == 71 {
            Address::ChassisController
        } else if value == 74 {
            Address::CommunicationsUnit
        } else if value == 76 {
            Address::Radio
        } else if value == 83 {
            Address::SafetyRestraintSystem
        } else if value == 85 {
            Address::AftertreatmentControlModule
        } else if value == 127 {
            Address::MultiPurposeCamera
        } else if value == 128 {
            Address::SwitchExpansionModule
        } else if value == 132 {
            Address::AuxiliaryGaugeSwitchPack
        } else if value == 139 {
            Address::Iteris
        } else if value == 142 {
            Address::QualcommPeopleNetTranslatorBox
        } else if value == 150 {
            Address::StandAloneRealTimeClock
        } else if value == 151 {
            Address::CenterPanel1
        } else if value == 152 {
            Address::CenterPanel2
        } else if value == 153 {
            Address::CenterPanel3
        } else if value == 154 {
            Address::CenterPanel4
        } else if value == 155 {
            Address::CenterPanel5
        } else if value == 160 {
            Address::WabcoOnGuardRadar
        } else if value == 167 {
            Address::SecondaryInstrumentCluster
        } else if value == 172 {
            Address::OffboardDiagnostics
        } else if value == 184 {
            Address::Trailer3Bridge
        } else if value == 192 {
            Address::Trailer2Bridge
        } else if value == 200 {
            Address::Trailer1Bridge
        } else if value == 209 {
            Address::SafetyDirectProcessor
        } else if value == 232 {
            Address::ForwardRoadImageProcessor
        } else if value == 233 {
            Address::LeftRearDoorPod
        } else if value == 234 {
            Address::RightRearDoorPod
        } else if value == 236 {
            Address::DoorController1
        } else if value == 237 {
            Address::DoorController2
        } else if value == 238 {
            Address::Tachograph
        } else if value == 239 {
            Address::HybridSystem
        } else if value == 247 {
            Address::AuxiliaryPowerUnit
        } else if value == 249 {
            Address::ServiceTool
        } else if value == 254 {
            Address::SourceAddressRequest0
        } else if value == 255 {
            Address::SourceAddressRequest1
        } else {
            Address::Unknown(value)
        }
    }

    /// The address byte of a controller.
    pub open spec fn spec_into_u8(self) -> u8 {
        match self {
            Address::PrimaryEngineController => 0,
            Address::SecondaryEngineController => 1,
            Address::PrimaryTransmissionController => 3,
            Address::TransmissionShiftSelector => 5,
            Address::Brakes => 11,
            Address::Retarder => 15,
            Address::CruiseControl => 17,
            Address::FuelSystem => 18,
            Address::SteeringController => 19,
            Address::InstrumentCluster => 23,
            Address::ClimateControl1 => 25,
            Address::Compass => 28,
            Address::BodyController => 33,
            Address::OffVehicleGateway => 37,
            Address::DidVid => 40,
            Address::RetarderExhaustEngine1 => 41,
            Address::HeadwayController => 42,
            Address::Suspension => 47,
            Address::CabController => 49,
            Address::TirePressureController => 51,
            Address::LightingControlModule => 55,
            Address::ClimateControl2 => 58,
            Address::ExhaustEmissionController => 61,
            Address::AuxiliaryHeater => 69,
            Address::ChassisController => 71,
            Address::CommunicationsUnit => 74,
            Address::Radio => 76,
            Address::SafetyRestraintSystem => 83,
            Address::AftertreatmentControlModule => 85,
            Address::MultiPurposeCamera => 127,
            Address::SwitchExpansionModule => 128,
            Address::AuxiliaryGaugeSwitchPack => 132,
            Address::Iteris => 139,
            Address::QualcommPeopleNetTranslatorBox => 142,
            Address::StandAloneRealTimeClock => 150,
            Address::CenterPanel1 => 151,
            Address::CenterPanel2 => 152,
            Address::CenterPanel3 => 153,
            Address::CenterPanel4 => 154,
            Address::CenterPanel5 => 155,
            Address::WabcoOnGuardRadar => 160,
            Address::SecondaryInstrumentCluster => 167,
            Address::OffboardDiagnostics => 172,
            Address::Trailer3Bridge => 184,
            Address::Trailer2Bridge => 192,
            Address::Trailer1Bridge => 200,
            Address::SafetyDirectProcessor => 209,
            Address::ForwardRoadImageProcessor => 232,
            Address::LeftRearDoorPod => 233,
            Address::RightRearDoorPod => 234,
            Address::DoorController1 => 236,
            Address::DoorController2 => 237,
            Address::Tachograph => 238,
            Address::HybridSystem => 239,
            Address::AuxiliaryPowerUnit => 247,
            Address::ServiceTool => 249,
            Address::SourceAddressRequest0 => 254,
            Address::SourceAddressRequest1 => 255,
            Address::Unknown(a) => a,
        }
    }

    /// The name of a controller.
    pub open spec fn spec_name(self) -> Seq<char> {
        match self {
            Address::PrimaryEngineController => "Primary Engine Controller | (CPC, ECM)"@,
            Address::SecondaryEngineController => "Secondary Engine Controller | (MCM, ECM #2)"@,
            Address::PrimaryTransmissionController => "Primary Transmission Controller | (TCM)"@,
            Address::TransmissionShiftSelector => "Transmission Shift Selector | (TSS)"@,
            Address::Brakes => "Brakes | System Controller (ABS)"@,
            Address::Retarder => "Retarder"@,
            Address::CruiseControl => "Cruise Control | (IPM, PCC)"@,
            Address::FuelSystem => "Fuel System | Controller (CNG)"@,
            Address::SteeringController => "Steering Controller | (SAS)"@,
            Address::InstrumentCluster => "Instrument Gauge Cluster (EGC) | (ICU, RX)"@,
            Address::ClimateControl1 => "Climate Control #1 | (FCU)"@,
            Address::Compass => "Compass"@,
            Address::BodyController => "Body Controller | (SSAM, SAM-CAB, BHM)"@,
            Address::OffVehicleGateway => "Off-Vehicle Gateway | (CGW)"@,
            Address::DidVid => "Vehicle Information Display | Driver Information Display"@,
            Address::RetarderExhaustEngine1 => "Retarder, Exhaust, Engine #1"@,
            Address::HeadwayController => "Headway Controller | (RDF) | (OnGuard)"@,
            Address::Suspension => "Suspension | System Controller (ECAS)"@,
            Address::CabController => "Cab Controller | Primary (MSF, SHM, ECC)"@,
            Address::TirePressureController => "Tire Pressure Controller | (TPMS)"@,
            Address::LightingControlModule => "Lighting Control Module | (LCM)"@,
            Address::ClimateControl2 => "Climate Control #2 | Rear HVAC | (ParkSmart)"@,
            Address::ExhaustEmissionController => "Exhaust Emission Controller | (ACM) | (DCU)"@,
            Address::AuxiliaryHeater => "Auxiliary Heater | (ACU)"@,
            Address::ChassisController => "Chassis Controller | (CHM, SAM-Chassis)"@,
            Address::CommunicationsUnit => "Communications Unit | Cellular (CTP, VT)"@,
            Address::Radio => "Radio"@,
            Address::SafetyRestraintSystem => "Safety Restraint System | Air Bag | (SRS)"@,
            Address::AftertreatmentControlModule => "Aftertreatment Control Module | (ACM)"@,
            Address::MultiPurposeCamera => "Multi-Purpose Camera | (MPC)"@,
            Address::SwitchExpansionModule => "Switch Expansion Module | (SEM #1)"@,
            Address::AuxiliaryGaugeSwitchPack => "Auxiliary Gauge Switch Pack | (AGSP3)"@,
            Address::Iteris => "Iteris"@,
            Address::QualcommPeopleNetTranslatorBox => "Qualcomm - PeopleNet Translator Box"@,
            Address::StandAloneRealTimeClock => "Stand-Alone Real Time Clock | (SART)"@,
            Address::CenterPanel1 => "Center Panel MUX Switch Pack #1"@,
            Address::CenterPanel2 => "Center Panel MUX Switch Pack #2"@,
            Address::CenterPanel3 => "Center Panel MUX Switch Pack #3"@,
            Address::CenterPanel4 => "Center Panel MUX Switch Pack #4"@,
            Address::CenterPanel5 => "Center Panel MUX Switch Pack #5"@,
            Address::WabcoOnGuardRadar => "Wabco OnGuard Radar | OnGuard Display | Collision Mitigation System"@,
            Address::SecondaryInstrumentCluster => "Secondary Instrument Cluster | (SIC)"@,
            Address::OffboardDiagnostics => "Offboard Diagnostics"@,
            Address::Trailer3Bridge => "Trailer #3 Bridge"@,
            Address::Trailer2Bridge => "Trailer #2 Bridge"@,
            Address::Trailer1Bridge => "Trailer #1 Bridge"@,
            Address::SafetyDirectProcessor => "Bendix Camera | Safety Direct Processor (SDP) Module"@,
            Address::ForwardRoadImageProcessor => "Forward Road Image Processor | PAM Module | Lane Departure Warning (LDW) Module | (VRDU)"@,
            Address::LeftRearDoorPod => "Left Rear Door Pod"@,
            Address::RightRearDoorPod => "Right Rear Door Pod"@,
            Address::DoorController1 => "Door Controller #1"@,
            Address::DoorController2 => "Door Controller #2"@,
            Address::Tachograph => "Tachograph | (TCO)"@,
            Address::HybridSystem => "Hybrid System"@,
            Address::AuxiliaryPowerUnit => "Auxiliary Power Unit | (APU)"@,
            Address::ServiceTool => "Service Tool"@,
            Address::SourceAddressRequest0 => "Source Address Request 0"@,
            Address::SourceAddressRequest1 => "Source Address Request 1"@,
            Address::Unknown(num) => "Unknown("@ + spec_decimal_digits(num as nat) + ")"@,
        }
    }

    /// The address byte of a controller.
    #[verifier::when_used_as_spec(spec_into_u8)]
    pub fn into_u8(self) -> (r: u8)
        ensures
            r == self.spec_into_u8(),
    {
        match self {
            Address::PrimaryEngineController => 0,
            Address::SecondaryEngineController => 1,
            Address::PrimaryTransmissionController => 3,
            Address::TransmissionShiftSelector => 5,
            Address::Brakes => 11,
            Address::Retarder => 15,
            Address::CruiseControl => 17,
            Address::FuelSystem => 18,
            Address::SteeringController => 19,
            Address::InstrumentCluster => 23,
            Address::ClimateControl1 => 25,
            Address::Compass => 28,
            Address::BodyController => 33,
            Address::OffVehicleGateway => 37,
            Address::DidVid => 40,
            Address::RetarderExhaustEngine1 => 41,
            Address::HeadwayController => 42,
            Address::Suspension => 47,
            Address::CabController => 49,
            Address::TirePressureController => 51,
            Address::LightingControlModule => 55,
            Address::ClimateControl2 => 58,
            Address::ExhaustEmissionController => 61,
            Address::AuxiliaryHeater => 69,
            Address::ChassisController => 71,
            Address::CommunicationsUnit => 74,
            Address::Radio => 76,
            Address::SafetyRestraintSystem => 83,
            Address::AftertreatmentControlModule => 85,
            Address::MultiPurposeCamera => 127,
            Address::SwitchExpansionModule => 128,
            Address::AuxiliaryGaugeSwitchPack => 132,
            Address::Iteris => 139,
            Address::QualcommPeopleNetTranslatorBox => 142,
            Address::StandAloneRealTimeClock => 150,
            Address::CenterPanel1 => 151,
            Address::CenterPanel2 => 152,
            Address::CenterPanel3 => 153,
            Address::CenterPanel4 => 154,
            Address::CenterPanel5 => 155,
            Address::WabcoOnGuardRadar => 160,
            Address::SecondaryInstrumentCluster => 167,
            Address::OffboardDiagnostics => 172,
            Address::Trailer3Bridge => 184,
            Address::Trailer2Bridge => 192,
            Address::Trailer1Bridge => 200,
            Address::SafetyDirectProcessor => 209,
            Address::ForwardRoadImageProcessor => 232,
            Address::LeftRearDoorPod => 233,
            Address::RightRearDoorPod => 234,
            Address::DoorController1 => 236,
            Address::DoorController2 => 237,
            Address::Tachograph => 238,
            Address::HybridSystem => 239,
            Address::AuxiliaryPowerUnit => 247,
            Address::ServiceTool => 249,
            Address::SourceAddressRequest0 => 254,
            Address::SourceAddressRequest1 => 255,
            Address::Unknown(a) => a,
        }
    }

    /// The name of a controller, as text.
    pub fn to_string(&self) -> (r: String)
        ensures
            r@ == self.spec_name(),
    {
        match *self {
            Address::PrimaryEngineController => "Primary Engine Controller | (CPC, ECM)".to_owned(),
            Address::SecondaryEngineController => "Secondary Engine Controller | (MCM, ECM #2)".to_owned(),
            Address::PrimaryTransmissionController => "Primary Transmission Controller | (TCM)".to_owned(),
            Address::TransmissionShiftSelector => "Transmission Shift Selector | (TSS)".to_owned(),
            Address::Brakes => "Brakes | System Controller (ABS)".to_owned(),
            Address::Retarder => "Retarder".to_owned(),
            Address::CruiseControl => "Cruise Control | (IPM, PCC)".to_owned(),
            Address::FuelSystem => "Fuel System | Controller (CNG)".to_owned(),
            Address::SteeringController => "Steering Controller | (SAS)".to_owned(),
            Address::InstrumentCluster => "Instrument Gauge Cluster (EGC) | (ICU, RX)".to_owned(),
            Address::ClimateControl1 => "Climate Control #1 | (FCU)".to_owned(),
            Address::Compass => "Compass".to_owned(),
            Address::BodyController => "Body Controller | (SSAM, SAM-CAB, BHM)".to_owned(),
            Address::OffVehicleGateway => "Off-Vehicle Gateway | (CGW)".to_owned(),
            Address::DidVid => "Vehicle Information Display | Driver Information Display".to_owned(),
            Address::RetarderExhaustEngine1 => "Retarder, Exhaust, Engine #1".to_owned(),
            Address::HeadwayController => "Headway Controller | (RDF) | (OnGuard)".to_owned(),
            Address::Suspension => "Suspension | System Controller (ECAS)".to_owned(),
            Address::CabController => "Cab Controller | Primary (MSF, SHM, ECC)".to_owned(),
            Address::TirePressureController => "Tire Pressure Controller | (TPMS)".to_owned(),
            Address::LightingControlModule => "Lighting Control Module | (LCM)".to_owned(),
            Address::ClimateControl2 => "Climate Control #2 | Rear HVAC | (ParkSmart)".to_owned(),
            Address::ExhaustEmissionController => "Exhaust Emission Controller | (ACM) | (DCU)".to_owned(),
            Address::AuxiliaryHeater => "Auxiliary Heater | (ACU)".to_owned(),
            Address::ChassisController => "Chassis Controller | (CHM, SAM-Chassis)".to_owned(),
            Address::CommunicationsUnit => "Communications Unit | Cellular (CTP, VT)".to_owned(),
            Address::Radio => "Radio".to_owned(),
            Address::SafetyRestraintSystem => "Safety Restraint System | Air Bag | (SRS)".to_owned(),
            Address::AftertreatmentControlModule => "Aftertreatment Control Module | (ACM)".to_owned(),
            Address::MultiPurposeCamera => "Multi-Purpose Camera | (MPC)".to_owned(),
            Address::SwitchExpansionModule => "Switch Expansion Module | (SEM #1)".to_owned(),
            Address::AuxiliaryGaugeSwitchPack => "Auxiliary Gauge Switch Pack | (AGSP3)".to_owned(),
            Address::Iteris => "Iteris".to_owned(),
            Address::QualcommPeopleNetTranslatorBox => "Qualcomm - PeopleNet Translator Box".to_owned(),
            Address::StandAloneRealTimeClock => "Stand-Alone Real Time Clock | (SART)".to_owned(),
            Address::CenterPanel1 => "Center Panel MUX Switch Pack #1".to_owned(),
            Address::CenterPanel2 => "Center Panel MUX Switch Pack #2".to_owned(),
            Address::CenterPanel3 => "Center Panel MUX Switch Pack #3".to_owned(),
            Address::CenterPanel4 => "Center Panel MUX Switch Pack #4".to_owned(),
            Address::CenterPanel5 => "Center Panel MUX Switch Pack #5".to_owned(),
            Address::WabcoOnGuardRadar => "Wabco OnGuard Radar | OnGuard Display | Collision Mitigation System".to_owned(),
            Address::SecondaryInstrumentCluster => "Secondary Instrument Cluster | (SIC)".to_owned(),
            Address::OffboardDiagnostics => "Offboard Diagnostics".to_owned(),
            Address::Trailer3Bridge => "Trailer #3 Bridge".to_owned(),
            Address::Trailer2Bridge => "Trailer #2 Bridge".to_owned(),
            Address::Trailer1Bridge => "Trailer #1 Bridge".to_owned(),
            Address::SafetyDirectProcessor => "Bendix Camera | Safety Direct Processor (SDP) Module".to_owned(),
            Address::ForwardRoadImageProcessor => "Forward Road Image Processor | PAM Module | Lane Departure Warning (LDW) Module | (VRDU)".to_owned(),
            Address::LeftRearDoorPod => "Left Rear Door Pod".to_owned(),
            Address::RightRearDoorPod => "Right Rear Door Pod".to_owned(),
            Address::DoorController1 => "Door Controller #1".to_owned(),
            Address::DoorController2 => "Door Controller #2".to_owned(),
            Address::Tachograph => "Tachograph | (TCO)".to_owned(),
            Address::HybridSystem => "Hybrid System".to_owned(),
            Address::AuxiliaryPowerUnit => "Auxiliary Power Unit | (APU)".to_owned(),
            Address::ServiceTool => "Service Tool".to_owned(),
            Address::SourceAddressRequest0 => "Source Address Request 0".to_owned(),
            Address::SourceAddressRequest1 => "Source Address Request 1".to_owned(),
            Address::Unknown(num) => unknown_name(num),
        }
    }
}

/// Formats with `Unknown({})`: the word, and the number in decimal digits
/// between round brackets.
#[verifier::external_body]
fn unknown_name(num: u8) -> (r: String)
    ensures
        r@ == "Unknown("@ + spec_decimal_digits(num as nat) + ")"@,
{
    format!("Unknown({num})")
}

impl From<u8> for Address {
    fn from(value: u8) -> (r: Self)
        ensures
            r == Address::spec_from_u8(value),
    {
        match value {
            0 => Address::PrimaryEngineController,
            1 => Address::SecondaryEngineController,
            3 => Address::PrimaryTransmissionController,
            5 => Address::TransmissionShiftSelector,
            11 => Address::Brakes,
            15 => Address::Retarder,
            17 => Address::CruiseControl,
            18 => Address::FuelSystem,
            19 => Address::SteeringController,
            23 => Address::InstrumentCluster,
            25 => Address::ClimateControl1,
            28 => Address::Compass,
            33 => Address::BodyController,
            37 => Address::OffVehicleGateway,
            40 => Address::DidVid,
            41 => Address::RetarderExhaustEngine1,
            42 => Address::HeadwayController,
            47 => Address::Suspension,
            49 => Address::CabController,
            51 => Address::TirePressureController,
            55 => Address::LightingControlModule,
            58 => Address::ClimateControl2,
            61 => Address::ExhaustEmissionController,
            69 => Address::AuxiliaryHeater,
            71 => Address::ChassisController,
            74 => Address::CommunicationsUnit,
            76 => Address::Radio,
            83 => Address::SafetyRestraintSystem,
            85 => Address::AftertreatmentControlModule,
            127 => Address::MultiPurposeCamera,
            128 => Address::SwitchExpansionModule,
            132 => Address::AuxiliaryGaugeSwitchPack,
            139 => Address::Iteris,
            142 => Address::QualcommPeopleNetTranslatorBox,
            150 => Address::StandAloneRealTimeClock,
            151 => Address::CenterPanel1,
            152 => Address::CenterPanel2,
            153 => Address::CenterPanel3,
            154 => Address::CenterPanel4,
            155 => Address::CenterPanel5,
            160 => Address::WabcoOnGuardRadar,
            167 => Address::SecondaryInstrumentCluster,
            172 => Address::OffboardDiagnostics,
            184 => Address::Trailer3Bridge,
            192 => Address::Trailer2Bridge,
            200 => Address::Trailer1Bridge,
            209 => Address::SafetyDirectProcessor,
            232 => Address::ForwardRoadImageProcessor,
            233 => Address::LeftRearDoorPod,
            234 => Address::RightRearDoorPod,
            236 => Address::DoorController1,
            237 => Address::DoorController2,
            238 => Address::Tachograph,
            239 => Address::HybridSystem,
            247 => Address::AuxiliaryPowerUnit,
            249 => Address::ServiceTool,
            254 => Address::SourceAddressRequest0,
            255 => Address::SourceAddressRequest1,
            a => Address::Unknown(a),
        }
    }
}

impl vstd::std_specs::convert::FromSpecImpl<u8> for Address {
    open spec fn obeys_from_spec() -> bool {
        true
    }

    open spec fn from_spec(value: u8) -> Self {
        Address::spec_from_u8(value)
    }
}

impl From<Address> for u8 {
    fn from(value: Address) -> (r: Self)
        ensures
            r == value.spec_into_u8(),
    {
        value.into_u8()
    }
}

impl vstd::std_specs::convert::FromSpecImpl<Address> for u8 {
    open spec fn obeys_from_spec() -> bool {
        true
    }

    open spec fn from_spec(value: Address) -> Self {
        value.spec_into_u8()
    }
}

/// An address byte stands for a controller that has that address byte. A
/// controller that is not unknown comes back from its address byte.
pub proof fn lemma_address_round_trip(value: u8, address: Address)
    ensures
        Address::spec_from_u8(value).spec_into_u8() == value,
        !(address is Unknown) ==> Address::spec_from_u8(address.spec_into_u8()) == address,
{
}

/// The address of the sender of a message.
#[derive(Debug, Clone, Copy, PartialEq, Eq, Structural)]
pub enum SourceAddress {
    /// No source address.
    Absent,
    /// The source address byte.
    Present(u8),
}

/// The address of the receiver of a message.
#[derive(Debug, Clone, Copy, PartialEq, Eq, Structural)]
pub enum DestinationAddress {
    /// No destination address.
    Absent,
    /// The destination address byte.
    Present(u8),
}

impl SourceAddress {
    /// The controller that the address stands for, where there is an
    /// address.
    #[must_use]
    pub fn lookup(self) -> (r: Option<Address>)
        ensures
            r == match self {
                SourceAddress::Present(value) => Some(Address::spec_from_u8(value)),
                SourceAddress::Absent => None,
            },
    {
        match self {
            SourceAddress::Present(value) => Some(Address::from(value)),
            SourceAddress::Absent => None,
        }
    }
}

impl DestinationAddress {
    /// The controller that the address stands for, where there is an
    /// address.
    #[must_use]
    pub fn lookup(self) -> (r: Option<Address>)
        ensures
            r == match self {
                DestinationAddress::Present(value) => Some(Address::spec_from_u8(value)),
                DestinationAddress::Absent => None,
            },
    {
        match self {
            DestinationAddress::Present(value) => Some(Address::from(value)),
            DestinationAddress::Absent => None,
        }
    }
}

} // verus!
