use vstd::prelude::*;

use crate::catalog::Classifier;
use crate::lexord::lex_lt;
use crate::lexord::lex_lt_from;
use crate::rank::classifier_of_rank;

verus! {

proof fn lex_adj_700()
    ensures
        lex_lt(Classifier::Topic__Multimedia__Video__NonLinearEditor.tag(), Classifier::Topic__OfficeBusiness.tag()),
{
    reveal_strlit("Topic :: Multimedia :: Video :: Non-Linear Editor");
    reveal_strlit("Topic :: Office/Business");
    reveal_with_fuel(lex_lt_from, 11);
}

proof fn lex_adj_701()
    ensures
        lex_lt(Classifier::Topic__OfficeBusiness.tag(), Classifier::Topic__OfficeBusiness__Financial.tag()),
{
    reveal_strlit("Topic :: Office/Business");
    reveal_strlit("Topic :: Office/Business :: Financial");
    reveal_with_fuel(lex_lt_from, 26);
}

proof fn lex_adj_702()
    ensures
        lex_lt(Classifier::Topic__OfficeBusiness__Financial.tag(), Classifier::Topic__OfficeBusiness__Financial__Accounting.tag()),
{
    reveal_strlit("Topic :: Office/Business :: Financial");
    reveal_strlit("Topic :: Office/Business :: Financial :: Accounting");
    reveal_with_fuel(lex_lt_from, 39);
}

proof fn lex_adj_703()
    ensures
        lex_lt(Classifier::Topic__OfficeBusiness__Financial__Accounting.tag(), Classifier::Topic__OfficeBusiness__Financial__Investment.tag()),
{
    reveal_strlit("Topic :: Office/Business :: Financial :: Accounting");
    reveal_strlit("Topic :: Office/Business :: Financial :: Investment");
    reveal_with_fuel(lex_lt_from, 43);
}

proof fn lex_adj_704()
    ensures
        lex_lt(Classifier::Topic__OfficeBusiness__Financial__Investment.tag(), Classifier::Topic__OfficeBusiness__Financial__PointOfSale.tag()),
{
    reveal_strlit("Topic :: Office/Business :: Financial :: Investment");
    reveal_strlit("Topic :: Office/Business :: Financial :: Point-Of-Sale");
    reveal_with_fuel(lex_lt_from, 43);
}

proof fn lex_adj_705()
    ensures
        lex_lt(Classifier::Topic__OfficeBusiness__Financial__PointOfSale.tag(), Classifier::Topic__OfficeBusiness__Financial__Spreadsheet.tag()),
{
    reveal_strlit("Topic :: Office/Business :: Financial :: Point-Of-Sale");
    reveal_strlit("Topic :: Office/Business :: Financial :: Spreadsheet");
    reveal_with_fuel(lex_lt_from, 43);
}

proof fn lex_adj_706()
    ensures
        lex_lt(Classifier::Topic__OfficeBusiness__Financial__Spreadsheet.tag(), Classifier::Topic__OfficeBusiness__Groupware.tag()),
{
    reveal_strlit("Topic :: Office/Business :: Financial :: Spreadsheet");
    reveal_strlit("Topic :: Office/Business :: Groupware");
    reveal_with_fuel(lex_lt_from, 30);
}

proof fn lex_adj_707()
    ensures
        lex_lt(Classifier::Topic__OfficeBusiness__Groupware.tag(), Classifier::Topic__OfficeBusiness__NewsDiary.tag()),
{
    reveal_strlit("Topic :: Office/Business :: Groupware");
    reveal_strlit("Topic :: Office/Business :: News/Diary");
    reveal_with_fuel(lex_lt_from, 30);
}

proof fn lex_adj_708()
    ensures
        lex_lt(Classifier::Topic__OfficeBusiness__NewsDiary.tag(), Classifier::Topic__OfficeBusiness__OfficeSuites.tag()),
{
    reveal_strlit("Topic :: Office/Business :: News/Diary");
    reveal_strlit("Topic :: Office/Business :: Office Suites");
    reveal_with_fuel(lex_lt_from, 30);
}

proof fn lex_adj_709()
    ensures
        lex_lt(Classifier::Topic__OfficeBusiness__OfficeSuites.tag(), Classifier::Topic__OfficeBusiness__Scheduling.tag()),
{
    reveal_strlit("Topic :: Office/Business :: Office Suites");
    reveal_strlit("Topic :: Office/Business :: Scheduling");
    reveal_with_fuel(lex_lt_from, 30);
}

proof fn lex_adj_710()
    ensures
        lex_lt(Classifier::Topic__OfficeBusiness__Scheduling.tag(), Classifier::Topic__OtherNonlistedTopic.tag()),
{
    reveal_strlit("Topic :: Office/Business :: Scheduling");
    reveal_strlit("Topic :: Other/Nonlisted Topic");
    reveal_with_fuel(lex_lt_from, 12);
}

proof fn lex_adj_711()
    ensures
        lex_lt(Classifier::Topic__OtherNonlistedTopic.tag(), Classifier::Topic__Printing.tag()),
{
    reveal_strlit("Topic :: Other/Nonlisted Topic");
    reveal_strlit("Topic :: Printing");
    reveal_with_fuel(lex_lt_from, 11);
}

proof fn lex_adj_712()
    ensures
        lex_lt(Classifier::Topic__Printing.tag(), Classifier::Topic__Religion.tag()),
{
    reveal_strlit("Topic :: Printing");
    reveal_strlit("Topic :: Religion");
    reveal_with_fuel(lex_lt_from, 11);
}

proof fn lex_adj_713()
    ensures
        lex_lt(Classifier::Topic__Religion.tag(), Classifier::Topic__ScientificEngineering.tag()),
{
    reveal_strlit("Topic :: Religion");
    reveal_strlit("Topic :: Scientific/Engineering");
    reveal_with_fuel(lex_lt_from, 11);
}

proof fn lex_adj_714()
    ensures
        lex_lt(Classifier::Topic__ScientificEngineering.tag(), Classifier::Topic__ScientificEngineering__ArtificialIntelligence.tag()),
{
    reveal_strlit("Topic :: Scientific/Engineering");
    reveal_strlit("Topic :: Scientific/Engineering :: Artificial Intelligence");
    reveal_with_fuel(lex_lt_from, 33);
}

proof fn lex_adj_715()
    ensures
        lex_lt(Classifier::Topic__ScientificEngineering__ArtificialIntelligence.tag(), Classifier::Topic__ScientificEngineering__ArtificialLife.tag()),
{
    reveal_strlit("Topic :: Scientific/Engineering :: Artificial Intelligence");
    reveal_strlit("Topic :: Scientific/Engineering :: Artificial Life");
    reveal_with_fuel(lex_lt_from, 48);
}

proof fn lex_adj_716()
    ensures
        lex_lt(Classifier::Topic__ScientificEngineering__ArtificialLife.tag(), Classifier::Topic__ScientificEngineering__Astronomy.tag()),
{
    reveal_strlit("Topic :: Scientific/Engineering :: Artificial Life");
    reveal_strlit("Topic :: Scientific/Engineering :: Astronomy");
    reveal_with_fuel(lex_lt_from, 38);
}

proof fn lex_adj_717()
    ensures
        lex_lt(Classifier::Topic__ScientificEngineering__Astronomy.tag(), Classifier::Topic__ScientificEngineering__AtmosphericScience.tag()),
{
    reveal_strlit("Topic :: Scientific/Engineering :: Astronomy");
    reveal_strlit("Topic :: Scientific/Engineering :: Atmospheric Science");
    reveal_with_fuel(lex_lt_from, 38);
}

proof fn lex_adj_718()
    ensures
        lex_lt(Classifier::Topic__ScientificEngineering__AtmosphericScience.tag(), Classifier::Topic__ScientificEngineering__BioInformatics.tag()),
{
    reveal_strlit("Topic :: Scientific/Engineering :: Atmospheric Science");
    reveal_strlit("Topic :: Scientific/Engineering :: Bio-Informatics");
    reveal_with_fuel(lex_lt_from, 37);
}

proof fn lex_adj_719()
    ensures
        lex_lt(Classifier::Topic__ScientificEngineering__BioInformatics.tag(), Classifier::Topic__ScientificEngineering__Chemistry.tag()),
{
    reveal_strlit("Topic :: Scientific/Engineering :: Bio-Informatics");
    reveal_strlit("Topic :: Scientific/Engineering :: Chemistry");
    reveal_with_fuel(lex_lt_from, 37);
}

proof fn lex_adj_720()
    ensures
        lex_lt(Classifier::Topic__ScientificEngineering__Chemistry.tag(), Classifier::Topic__ScientificEngineering__ElectronicDesignAutomationEDA.tag()),
{
    reveal_strlit("Topic :: Scientific/Engineering :: Chemistry");
    reveal_strlit("Topic :: Scientific/Engineering :: Electronic Design Automation (EDA)");
    reveal_with_fuel(lex_lt_from, 37);
}

proof fn lex_adj_721()
    ensures
        lex_lt(Classifier::Topic__ScientificEngineering__ElectronicDesignAutomationEDA.tag(), Classifier::Topic__ScientificEngineering__GIS.tag()),
{
    reveal_strlit("Topic :: Scientific/Engineering :: Electronic Design Automation (EDA)");
    reveal_strlit("Topic :: Scientific/Engineering :: GIS");
    reveal_with_fuel(lex_lt_from, 37);
}

proof fn lex_adj_722()
    ensures
        lex_lt(Classifier::Topic__ScientificEngineering__GIS.tag(), Classifier::Topic__ScientificEngineering__HumanMachineInterfaces.tag()),
{
    reveal_strlit("Topic :: Scientific/Engineering :: GIS");
    reveal_strlit("Topic :: Scientific/Engineering :: Human Machine Interfaces");
    reveal_with_fuel(lex_lt_from, 37);
}

proof fn lex_adj_723()
    ensures
        lex_lt(Classifier::Topic__ScientificEngineering__HumanMachineInterfaces.tag(), Classifier::Topic__ScientificEngineering__Hydrology.tag()),
{
    reveal_strlit("Topic :: Scientific/Engineering :: Human Machine Interfaces");
    reveal_strlit("Topic :: Scientific/Engineering :: Hydrology");
    reveal_with_fuel(lex_lt_from, 38);
}

proof fn lex_adj_724()
    ensures
        lex_lt(Classifier::Topic__ScientificEngineering__Hydrology.tag(), Classifier::Topic__ScientificEngineering__ImageProcessing.tag()),
{
    reveal_strlit("Topic :: Scientific/Engineering :: Hydrology");
    reveal_strlit("Topic :: Scientific/Engineering :: Image Processing");
    reveal_with_fuel(lex_lt_from, 37);
}

proof fn lex_adj_725()
    ensures
        lex_lt(Classifier::Topic__ScientificEngineering__ImageProcessing.tag(), Classifier::Topic__ScientificEngineering__ImageRecognition.tag()),
{
    reveal_strlit("Topic :: Scientific/Engineering :: Image Processing");
    reveal_strlit("Topic :: Scientific/Engineering :: Image Recognition");
    reveal_with_fuel(lex_lt_from, 43);
}

proof fn lex_adj_726()
    ensures
        lex_lt(Classifier::Topic__ScientificEngineering__ImageRecognition.tag(), Classifier::Topic__ScientificEngineering__InformationAnalysis.tag()),
{
    reveal_strlit("Topic :: Scientific/Engineering :: Image Recognition");
    reveal_strlit("Topic :: Scientific/Engineering :: Information Analysis");
    reveal_with_fuel(lex_lt_from, 38);
}

proof fn lex_adj_727()
    ensures
        lex_lt(Classifier::Topic__ScientificEngineering__InformationAnalysis.tag(), Classifier::Topic__ScientificEngineering__InterfaceEngineProtocolTranslator.tag()),
{
    reveal_strlit("Topic :: Scientific/Engineering :: Information Analysis");
    reveal_strlit("Topic :: Scientific/Engineering :: Interface Engine/Protocol Translator");
    reveal_with_fuel(lex_lt_from, 39);
}

proof fn lex_adj_728()
    ensures
        lex_lt(Classifier::Topic__ScientificEngineering__InterfaceEngineProtocolTranslator.tag(), Classifier::Topic__ScientificEngineering__Mathematics.tag()),
{
    reveal_strlit("Topic :: Scientific/Engineering :: Interface Engine/Protocol Translator");
    reveal_strlit("Topic :: Scientific/Engineering :: Mathematics");
    reveal_with_fuel(lex_lt_from, 37);
}

proof fn lex_adj_729()
    ensures
        lex_lt(Classifier::Topic__ScientificEngineering__Mathematics.tag(), Classifier::Topic__ScientificEngineering__MedicalScienceApps_.tag()),
{
    reveal_strlit("Topic :: Scientific/Engineering :: Mathematics");
    reveal_strlit("Topic :: Scientific/Engineering :: Medical Science Apps.");
    reveal_with_fuel(lex_lt_from, 38);
}

proof fn lex_adj_730()
    ensures
        lex_lt(Classifier::Topic__ScientificEngineering__MedicalScienceApps_.tag(), Classifier::Topic__ScientificEngineering__Oceanography.tag()),
{
    reveal_strlit("Topic :: Scientific/Engineering :: Medical Science Apps.");
    reveal_strlit("Topic :: Scientific/Engineering :: Oceanography");
    reveal_with_fuel(lex_lt_from, 37);
}

proof fn lex_adj_731()
    ensures
        lex_lt(Classifier::Topic__ScientificEngineering__Oceanography.tag(), Classifier::Topic__ScientificEngineering__Physics.tag()),
{
    reveal_strlit("Topic :: Scientific/Engineering :: Oceanography");
    reveal_strlit("Topic :: Scientific/Engineering :: Physics");
    reveal_with_fuel(lex_lt_from, 37);
}

proof fn lex_adj_732()
    ensures
        lex_lt(Classifier::Topic__ScientificEngineering__Physics.tag(), Classifier::Topic__ScientificEngineering__Visualization.tag()),
{
    reveal_strlit("Topic :: Scientific/Engineering :: Physics");
    reveal_strlit("Topic :: Scientific/Engineering :: Visualization");
    reveal_with_fuel(lex_lt_from, 37);
}

proof fn lex_adj_733()
    ensures
        lex_lt(Classifier::Topic__ScientificEngineering__Visualization.tag(), Classifier::Topic__Security.tag()),
{
    reveal_strlit("Topic :: Scientific/Engineering :: Visualization");
    reveal_strlit("Topic :: Security");
    reveal_with_fuel(lex_lt_from, 12);
}

proof fn lex_adj_734()
    ensures
        lex_lt(Classifier::Topic__Security.tag(), Classifier::Topic__Security__Cryptography.tag()),
{
    reveal_strlit("Topic :: Security");
    reveal_strlit("Topic :: Security :: Cryptography");
    reveal_with_fuel(lex_lt_from, 19);
}

proof fn lex_adj_735()
    ensures
        lex_lt(Classifier::Topic__Security__Cryptography.tag(), Classifier::Topic__Sociology.tag()),
{
    reveal_strlit("Topic :: Security :: Cryptography");
    reveal_strlit("Topic :: Sociology");
    reveal_with_fuel(lex_lt_from, 12);
}

proof fn lex_adj_736()
    ensures
        lex_lt(Classifier::Topic__Sociology.tag(), Classifier::Topic__Sociology__Genealogy.tag()),
{
    reveal_strlit("Topic :: Sociology");
    reveal_strlit("Topic :: Sociology :: Genealogy");
    reveal_with_fuel(lex_lt_from, 20);
}

proof fn lex_adj_737()
    ensures
        lex_lt(Classifier::Topic__Sociology__Genealogy.tag(), Classifier::Topic__Sociology__History.tag()),
{
    reveal_strlit("Topic :: Sociology :: Genealogy");
    reveal_strlit("Topic :: Sociology :: History");
    reveal_with_fuel(lex_lt_from, 24);
}

proof fn lex_adj_738()
    ensures
        lex_lt(Classifier::Topic__Sociology__History.tag(), Classifier::Topic__SoftwareDevelopment.tag()),
{
    reveal_strlit("Topic :: Sociology :: History");
    reveal_strlit("Topic :: Software Development");
    reveal_with_fuel(lex_lt_from, 13);
}

proof fn lex_adj_739()
    ensures
        lex_lt(Classifier::Topic__SoftwareDevelopment.tag(), Classifier::Topic__SoftwareDevelopment__Assemblers.tag()),
{
    reveal_strlit("Topic :: Software Development");
    reveal_strlit("Topic :: Software Development :: Assemblers");
    reveal_with_fuel(lex_lt_from, 31);
}

proof fn lex_adj_740()
    ensures
        lex_lt(Classifier::Topic__SoftwareDevelopment__Assemblers.tag(), Classifier::Topic__SoftwareDevelopment__BugTracking.tag()),
{
    reveal_strlit("Topic :: Software Development :: Assemblers");
    reveal_strlit("Topic :: Software Development :: Bug Tracking");
    reveal_with_fuel(lex_lt_from, 35);
}

proof fn lex_adj_741()
    ensures
        lex_lt(Classifier::Topic__SoftwareDevelopment__BugTracking.tag(), Classifier::Topic__SoftwareDevelopment__BuildTools.tag()),
{
    reveal_strlit("Topic :: Software Development :: Bug Tracking");
    reveal_strlit("Topic :: Software Development :: Build Tools");
    reveal_with_fuel(lex_lt_from, 37);
}

proof fn lex_adj_742()
    ensures
        lex_lt(Classifier::Topic__SoftwareDevelopment__BuildTools.tag(), Classifier::Topic__SoftwareDevelopment__CodeGenerators.tag()),
{
    reveal_strlit("Topic :: Software Development :: Build Tools");
    reveal_strlit("Topic :: Software Development :: Code Generators");
    reveal_with_fuel(lex_lt_from, 35);
}

proof fn lex_adj_743()
    ensures
        lex_lt(Classifier::Topic__SoftwareDevelopment__CodeGenerators.tag(), Classifier::Topic__SoftwareDevelopment__Compilers.tag()),
{
    reveal_strlit("Topic :: Software Development :: Code Generators");
    reveal_strlit("Topic :: Software Development :: Compilers");
    reveal_with_fuel(lex_lt_from, 37);
}

proof fn lex_adj_744()
    ensures
        lex_lt(Classifier::Topic__SoftwareDevelopment__Compilers.tag(), Classifier::Topic__SoftwareDevelopment__Debuggers.tag()),
{
    reveal_strlit("Topic :: Software Development :: Compilers");
    reveal_strlit("Topic :: Software Development :: Debuggers");
    reveal_with_fuel(lex_lt_from, 35);
}

proof fn lex_adj_745()
    ensures
        lex_lt(Classifier::Topic__SoftwareDevelopment__Debuggers.tag(), Classifier::Topic__SoftwareDevelopment__Disassemblers.tag()),
{
    reveal_strlit("Topic :: Software Development :: Debuggers");
    reveal_strlit("Topic :: Software Development :: Disassemblers");
    reveal_with_fuel(lex_lt_from, 36);
}

proof fn lex_adj_746()
    ensures
        lex_lt(Classifier::Topic__SoftwareDevelopment__Disassemblers.tag(), Classifier::Topic__SoftwareDevelopment__Documentation.tag()),
{
    reveal_strlit("Topic :: Software Development :: Disassemblers");
    reveal_strlit("Topic :: Software Development :: Documentation");
    reveal_with_fuel(lex_lt_from, 36);
}

proof fn lex_adj_747()
    ensures
        lex_lt(Classifier::Topic__SoftwareDevelopment__Documentation.tag(), Classifier::Topic__SoftwareDevelopment__EmbeddedSystems.tag()),
{
    reveal_strlit("Topic :: Software Development :: Documentation");
    reveal_strlit("Topic :: Software Development :: Embedded Systems");
    reveal_with_fuel(lex_lt_from, 35);
}

proof fn lex_adj_748()
    ensures
        lex_lt(Classifier::Topic__SoftwareDevelopment__EmbeddedSystems.tag(), Classifier::Topic__SoftwareDevelopment__EmbeddedSystems__ControllerAreaNetworkCAN.tag()),
{
    reveal_strlit("Topic :: Software Development :: Embedded Systems");
    reveal_strlit("Topic :: Software Development :: Embedded Systems :: Controller Area Network (CAN)");
    reveal_with_fuel(lex_lt_from, 51);
}

proof fn lex_adj_749()
    ensures
        lex_lt(Classifier::Topic__SoftwareDevelopment__EmbeddedSystems__ControllerAreaNetworkCAN.tag(), Classifier::Topic__SoftwareDevelopment__EmbeddedSystems__ControllerAreaNetworkCAN__CANopen.tag()),
{
    reveal_strlit("Topic :: Software Development :: Embedded Systems :: Controller Area Network (CAN)");
    reveal_strlit("Topic :: Software Development :: Embedded Systems :: Controller Area Network (CAN) :: CANopen");
    reveal_with_fuel(lex_lt_from, 84);
}

proof fn lex_adj_750()
    ensures
        lex_lt(Classifier::Topic__SoftwareDevelopment__EmbeddedSystems__ControllerAreaNetworkCAN__CANopen.tag(), Classifier::Topic__SoftwareDevelopment__EmbeddedSystems__ControllerAreaNetworkCAN__J1939.tag()),
{
    reveal_strlit("Topic :: Software Development :: Embedded Systems :: Controller Area Network (CAN) :: CANopen");
    reveal_strlit("Topic :: Software Development :: Embedded Systems :: Controller Area Network (CAN) :: J1939");
    reveal_with_fuel(lex_lt_from, 88);
}

proof fn lex_adj_751()
    ensures
        lex_lt(Classifier::Topic__SoftwareDevelopment__EmbeddedSystems__ControllerAreaNetworkCAN__J1939.tag(), Classifier::Topic__SoftwareDevelopment__Internationalization.tag()),
{
    reveal_strlit("Topic :: Software Development :: Embedded Systems :: Controller Area Network (CAN) :: J1939");
    reveal_strlit("Topic :: Software Development :: Internationalization");
    reveal_with_fuel(lex_lt_from, 35);
}

proof fn lex_adj_752()
    ensures
        lex_lt(Classifier::Topic__SoftwareDevelopment__Internationalization.tag(), Classifier::Topic__SoftwareDevelopment__Interpreters.tag()),
{
    reveal_strlit("Topic :: Software Development :: Internationalization");
    reveal_strlit("Topic :: Software Development :: Interpreters");
    reveal_with_fuel(lex_lt_from, 40);
}

proof fn lex_adj_753()
    ensures
        lex_lt(Classifier::Topic__SoftwareDevelopment__Interpreters.tag(), Classifier::Topic__SoftwareDevelopment__Libraries.tag()),
{
    reveal_strlit("Topic :: Software Development :: Interpreters");
    reveal_strlit("Topic :: Software Development :: Libraries");
    reveal_with_fuel(lex_lt_from, 35);
}

proof fn lex_adj_754()
    ensures
        lex_lt(Classifier::Topic__SoftwareDevelopment__Libraries.tag(), Classifier::Topic__SoftwareDevelopment__Libraries__ApplicationFrameworks.tag()),
{
    reveal_strlit("Topic :: Software Development :: Libraries");
    reveal_strlit("Topic :: Software Development :: Libraries :: Application Frameworks");
    reveal_with_fuel(lex_lt_from, 44);
}

proof fn lex_adj_755()
    ensures
        lex_lt(Classifier::Topic__SoftwareDevelopment__Libraries__ApplicationFrameworks.tag(), Classifier::Topic__SoftwareDevelopment__Libraries__JavaLibraries.tag()),
{
    reveal_strlit("Topic :: Software Development :: Libraries :: Application Frameworks");
    reveal_strlit("Topic :: Software Development :: Libraries :: Java Libraries");
    reveal_with_fuel(lex_lt_from, 48);
}

proof fn lex_adj_756()
    ensures
        lex_lt(Classifier::Topic__SoftwareDevelopment__Libraries__JavaLibraries.tag(), Classifier::Topic__SoftwareDevelopment__Libraries__PHPClasses.tag()),
{
    reveal_strlit("Topic :: Software Development :: Libraries :: Java Libraries");
    reveal_strlit("Topic :: Software Development :: Libraries :: PHP Classes");
    reveal_with_fuel(lex_lt_from, 48);
}

proof fn lex_adj_757()
    ensures
        lex_lt(Classifier::Topic__SoftwareDevelopment__Libraries__PHPClasses.tag(), Classifier::Topic__SoftwareDevelopment__Libraries__PerlModules.tag()),
{
    reveal_strlit("Topic :: Software Development :: Libraries :: PHP Classes");
    reveal_strlit("Topic :: Software Development :: Libraries :: Perl Modules");
    reveal_with_fuel(lex_lt_from, 49);
}

proof fn lex_adj_758()
    ensures
        lex_lt(Classifier::Topic__SoftwareDevelopment__Libraries__PerlModules.tag(), Classifier::Topic__SoftwareDevelopment__Libraries__PikeModules.tag()),
{
    reveal_strlit("Topic :: Software Development :: Libraries :: Perl Modules");
    reveal_strlit("Topic :: Software Development :: Libraries :: Pike Modules");
    reveal_with_fuel(lex_lt_from, 49);
}

proof fn lex_adj_759()
    ensures
        lex_lt(Classifier::Topic__SoftwareDevelopment__Libraries__PikeModules.tag(), Classifier::Topic__SoftwareDevelopment__Libraries__PythonModules.tag()),
{
    reveal_strlit("Topic :: Software Development :: Libraries :: Pike Modules");
    reveal_strlit("Topic :: Software Development :: Libraries :: Python Modules");
    reveal_with_fuel(lex_lt_from, 49);
}

proof fn lex_adj_760()
    ensures
        lex_lt(Classifier::Topic__SoftwareDevelopment__Libraries__PythonModules.tag(), Classifier::Topic__SoftwareDevelopment__Libraries__RubyModules.tag()),
{
    reveal_strlit("Topic :: Software Development :: Libraries :: Python Modules");
    reveal_strlit("Topic :: Software Development :: Libraries :: Ruby Modules");
    reveal_with_fuel(lex_lt_from, 48);
}

proof fn lex_adj_761()
    ensures
        lex_lt(Classifier::Topic__SoftwareDevelopment__Libraries__RubyModules.tag(), Classifier::Topic__SoftwareDevelopment__Libraries__TclExtensions.tag()),
{
    reveal_strlit("Topic :: Software Development :: Libraries :: Ruby Modules");
    reveal_strlit("Topic :: Software Development :: Libraries :: Tcl Extensions");
    reveal_with_fuel(lex_lt_from, 48);
}

proof fn lex_adj_762()
    ensures
        lex_lt(Classifier::Topic__SoftwareDevelopment__Libraries__TclExtensions.tag(), Classifier::Topic__SoftwareDevelopment__Libraries__pygame.tag()),
{
    reveal_strlit("Topic :: Software Development :: Libraries :: Tcl Extensions");
    reveal_strlit("Topic :: Software Development :: Libraries :: pygame");
    reveal_with_fuel(lex_lt_from, 48);
}

proof fn lex_adj_763()
    ensures
        lex_lt(Classifier::Topic__SoftwareDevelopment__Libraries__pygame.tag(), Classifier::Topic__SoftwareDevelopment__Localization.tag()),
{
    reveal_strlit("Topic :: Software Development :: Libraries :: pygame");
    reveal_strlit("Topic :: Software Development :: Localization");
    reveal_with_fuel(lex_lt_from, 36);
}

proof fn lex_adj_764()
    ensures
        lex_lt(Classifier::Topic__SoftwareDevelopment__Localization.tag(), Classifier::Topic__SoftwareDevelopment__ObjectBrokering.tag()),
{
    reveal_strlit("Topic :: Software Development :: Localization");
    reveal_strlit("Topic :: Software Development :: Object Brokering");
    reveal_with_fuel(lex_lt_from, 35);
}

proof fn lex_adj_765()
    ensures
        lex_lt(Classifier::Topic__SoftwareDevelopment__ObjectBrokering.tag(), Classifier::Topic__SoftwareDevelopment__ObjectBrokering__CORBA.tag()),
{
    reveal_strlit("Topic :: Software Development :: Object Brokering");
    reveal_strlit("Topic :: Software Development :: Object Brokering :: CORBA");
    reveal_with_fuel(lex_lt_from, 51);
}

proof fn lex_adj_766()
    ensures
        lex_lt(Classifier::Topic__SoftwareDevelopment__ObjectBrokering__CORBA.tag(), Classifier::Topic__SoftwareDevelopment__Preprocessors.tag()),
{
    reveal_strlit("Topic :: Software Development :: Object Brokering :: CORBA");
    reveal_strlit("Topic :: Software Development :: Pre-processors");
    reveal_with_fuel(lex_lt_from, 35);
}

proof fn lex_adj_767()
    ensures
        lex_lt(Classifier::Topic__SoftwareDevelopment__Preprocessors.tag(), Classifier::Topic__SoftwareDevelopment__QualityAssurance.tag()),
{
    reveal_strlit("Topic :: Software Development :: Pre-processors");
    reveal_strlit("Topic :: Software Development :: Quality Assurance");
    reveal_with_fuel(lex_lt_from, 35);
}

proof fn lex_adj_768()
    ensures
        lex_lt(Classifier::Topic__SoftwareDevelopment__QualityAssurance.tag(), Classifier::Topic__SoftwareDevelopment__Testing.tag()),
{
    reveal_strlit("Topic :: Software Development :: Quality Assurance");
    reveal_strlit("Topic :: Software Development :: Testing");
    reveal_with_fuel(lex_lt_from, 35);
}

proof fn lex_adj_769()
    ensures
        lex_lt(Classifier::Topic__SoftwareDevelopment__Testing.tag(), Classifier::Topic__SoftwareDevelopment__Testing__Acceptance.tag()),
{
    reveal_strlit("Topic :: Software Development :: Testing");
    reveal_strlit("Topic :: Software Development :: Testing :: Acceptance");
    reveal_with_fuel(lex_lt_from, 42);
}

proof fn lex_adj_770()
    ensures
        lex_lt(Classifier::Topic__SoftwareDevelopment__Testing__Acceptance.tag(), Classifier::Topic__SoftwareDevelopment__Testing__BDD.tag()),
{
    reveal_strlit("Topic :: Software Development :: Testing :: Acceptance");
    reveal_strlit("Topic :: Software Development :: Testing :: BDD");
    reveal_with_fuel(lex_lt_from, 46);
}

proof fn lex_adj_771()
    ensures
        lex_lt(Classifier::Topic__SoftwareDevelopment__Testing__BDD.tag(), Classifier::Topic__SoftwareDevelopment__Testing__Mocking.tag()),
{
    reveal_strlit("Topic :: Software Development :: Testing :: BDD");
    reveal_strlit("Topic :: Software Development :: Testing :: Mocking");
    reveal_with_fuel(lex_lt_from, 46);
}

proof fn lex_adj_772()
    ensures
        lex_lt(Classifier::Topic__SoftwareDevelopment__Testing__Mocking.tag(), Classifier::Topic__SoftwareDevelopment__Testing__TrafficGeneration.tag()),
{
    reveal_strlit("Topic :: Software Development :: Testing :: Mocking");
    reveal_strlit("Topic :: Software Development :: Testing :: Traffic Generation");
    reveal_with_fuel(lex_lt_from, 46);
}

proof fn lex_adj_773()
    ensures
        lex_lt(Classifier::Topic__SoftwareDevelopment__Testing__TrafficGeneration.tag(), Classifier::Topic__SoftwareDevelopment__Testing__Unit.tag()),
{
    reveal_strlit("Topic :: Software Development :: Testing :: Traffic Generation");
    reveal_strlit("Topic :: Software Development :: Testing :: Unit");
    reveal_with_fuel(lex_lt_from, 46);
}

proof fn lex_adj_774()
    ensures
        lex_lt(Classifier::Topic__SoftwareDevelopment__Testing__Unit.tag(), Classifier::Topic__SoftwareDevelopment__UserInterfaces.tag()),
{
    reveal_strlit("Topic :: Software Development :: Testing :: Unit");
    reveal_strlit("Topic :: Software Development :: User Interfaces");
    reveal_with_fuel(lex_lt_from, 35);
}

proof fn lex_adj_775()
    ensures
        lex_lt(Classifier::Topic__SoftwareDevelopment__UserInterfaces.tag(), Classifier::Topic__SoftwareDevelopment__VersionControl.tag()),
{
    reveal_strlit("Topic :: Software Development :: User Interfaces");
    reveal_strlit("Topic :: Software Development :: Version Control");
    reveal_with_fuel(lex_lt_from, 35);
}

proof fn lex_adj_776()
    ensures
        lex_lt(Classifier::Topic__SoftwareDevelopment__VersionControl.tag(), Classifier::Topic__SoftwareDevelopment__VersionControl__Bazaar.tag()),
{
    reveal_strlit("Topic :: Software Development :: Version Control");
    reveal_strlit("Topic :: Software Development :: Version Control :: Bazaar");
    reveal_with_fuel(lex_lt_from, 50);
}

proof fn lex_adj_777()
    ensures
        lex_lt(Classifier::Topic__SoftwareDevelopment__VersionControl__Bazaar.tag(), Classifier::Topic__SoftwareDevelopment__VersionControl__CVS.tag()),
{
    reveal_strlit("Topic :: Software Development :: Version Control :: Bazaar");
    reveal_strlit("Topic :: Software Development :: Version Control :: CVS");
    reveal_with_fuel(lex_lt_from, 54);
}

proof fn lex_adj_778()
    ensures
        lex_lt(Classifier::Topic__SoftwareDevelopment__VersionControl__CVS.tag(), Classifier::Topic__SoftwareDevelopment__VersionControl__Git.tag()),
{
    reveal_strlit("Topic :: Software Development :: Version Control :: CVS");
    reveal_strlit("Topic :: Software Development :: Version Control :: Git");
    reveal_with_fuel(lex_lt_from, 54);
}

proof fn lex_adj_779()
    ensures
        lex_lt(Classifier::Topic__SoftwareDevelopment__VersionControl__Git.tag(), Classifier::Topic__SoftwareDevelopment__VersionControl__Mercurial.tag()),
{
    reveal_strlit("Topic :: Software Development :: Version Control :: Git");
    reveal_strlit("Topic :: Software Development :: Version Control :: Mercurial");
    reveal_with_fuel(lex_lt_from, 54);
}

proof fn lex_adj_780()
    ensures
        lex_lt(Classifier::Topic__SoftwareDevelopment__VersionControl__Mercurial.tag(), Classifier::Topic__SoftwareDevelopment__VersionControl__RCS.tag()),
{
    reveal_strlit("Topic :: Software Development :: Version Control :: Mercurial");
    reveal_strlit("Topic :: Software Development :: Version Control :: RCS");
    reveal_with_fuel(lex_lt_from, 54);
}

proof fn lex_adj_781()
    ensures
        lex_lt(Classifier::Topic__SoftwareDevelopment__VersionControl__RCS.tag(), Classifier::Topic__SoftwareDevelopment__VersionControl__SCCS.tag()),
{
    reveal_strlit("Topic :: Software Development :: Version Control :: RCS");
    reveal_strlit("Topic :: Software Development :: Version Control :: SCCS");
    reveal_with_fuel(lex_lt_from, 54);
}

proof fn lex_adj_782()
    ensures
        lex_lt(Classifier::Topic__SoftwareDevelopment__VersionControl__SCCS.tag(), Classifier::Topic__SoftwareDevelopment__WidgetSets.tag()),
{
    reveal_strlit("Topic :: Software Development :: Version Control :: SCCS");
    reveal_strlit("Topic :: Software Development :: Widget Sets");
    reveal_with_fuel(lex_lt_from, 35);
}

proof fn lex_adj_783()
    ensures
        lex_lt(Classifier::Topic__SoftwareDevelopment__WidgetSets.tag(), Classifier::Topic__System.tag()),
{
    reveal_strlit("Topic :: Software Development :: Widget Sets");
    reveal_strlit("Topic :: System");
    reveal_with_fuel(lex_lt_from, 12);
}

proof fn lex_adj_784()
    ensures
        lex_lt(Classifier::Topic__System.tag(), Classifier::Topic__System__Archiving.tag()),
{
    reveal_strlit("Topic :: System");
    reveal_strlit("Topic :: System :: Archiving");
    reveal_with_fuel(lex_lt_from, 17);
}

proof fn lex_adj_785()
    ensures
        lex_lt(Classifier::Topic__System__Archiving.tag(), Classifier::Topic__System__Archiving__Backup.tag()),
{
    reveal_strlit("Topic :: System :: Archiving");
    reveal_strlit("Topic :: System :: Archiving :: Backup");
    reveal_with_fuel(lex_lt_from, 30);
}

proof fn lex_adj_786()
    ensures
        lex_lt(Classifier::Topic__System__Archiving__Backup.tag(), Classifier::Topic__System__Archiving__Compression.tag()),
{
    reveal_strlit("Topic :: System :: Archiving :: Backup");
    reveal_strlit("Topic :: System :: Archiving :: Compression");
    reveal_with_fuel(lex_lt_from, 34);
}

proof fn lex_adj_787()
    ensures
        lex_lt(Classifier::Topic__System__Archiving__Compression.tag(), Classifier::Topic__System__Archiving__Mirroring.tag()),
{
    reveal_strlit("Topic :: System :: Archiving :: Compression");
    reveal_strlit("Topic :: System :: Archiving :: Mirroring");
    reveal_with_fuel(lex_lt_from, 34);
}

proof fn lex_adj_788()
    ensures
        lex_lt(Classifier::Topic__System__Archiving__Mirroring.tag(), Classifier::Topic__System__Archiving__Packaging.tag()),
{
    reveal_strlit("Topic :: System :: Archiving :: Mirroring");
    reveal_strlit("Topic :: System :: Archiving :: Packaging");
    reveal_with_fuel(lex_lt_from, 34);
}

proof fn lex_adj_789()
    ensures
        lex_lt(Classifier::Topic__System__Archiving__Packaging.tag(), Classifier::Topic__System__Benchmark.tag()),
{
    reveal_strlit("Topic :: System :: Archiving :: Packaging");
    reveal_strlit("Topic :: System :: Benchmark");
    reveal_with_fuel(lex_lt_from, 21);
}

proof fn lex_adj_790()
    ensures
        lex_lt(Classifier::Topic__System__Benchmark.tag(), Classifier::Topic__System__Boot.tag()),
{
    reveal_strlit("Topic :: System :: Benchmark");
    reveal_strlit("Topic :: System :: Boot");
    reveal_with_fuel(lex_lt_from, 22);
}

proof fn lex_adj_791()
    ensures
        lex_lt(Classifier::Topic__System__Boot.tag(), Classifier::Topic__System__Boot__Init.tag()),
{
    reveal_strlit("Topic :: System :: Boot");
    reveal_strlit("Topic :: System :: Boot :: Init");
    reveal_with_fuel(lex_lt_from, 25);
}

proof fn lex_adj_792()
    ensures
        lex_lt(Classifier::Topic__System__Boot__Init.tag(), Classifier::Topic__System__Clustering.tag()),
{
    reveal_strlit("Topic :: System :: Boot :: Init");
    reveal_strlit("Topic :: System :: Clustering");
    reveal_with_fuel(lex_lt_from, 21);
}

proof fn lex_adj_793()
    ensures
        lex_lt(Classifier::Topic__System__Clustering.tag(), Classifier::Topic__System__ConsoleFonts.tag()),
{
    reveal_strlit("Topic :: System :: Clustering");
    reveal_strlit("Topic :: System :: Console Fonts");
    reveal_with_fuel(lex_lt_from, 22);
}

proof fn lex_adj_794()
    ensures
        lex_lt(Classifier::Topic__System__ConsoleFonts.tag(), Classifier::Topic__System__DistributedComputing.tag()),
{
    reveal_strlit("Topic :: System :: Console Fonts");
    reveal_strlit("Topic :: System :: Distributed Computing");
    reveal_with_fuel(lex_lt_from, 21);
}

proof fn lex_adj_795()
    ensures
        lex_lt(Classifier::Topic__System__DistributedComputing.tag(), Classifier::Topic__System__Emulators.tag()),
{
    reveal_strlit("Topic :: System :: Distributed Computing");
    reveal_strlit("Topic :: System :: Emulators");
    reveal_with_fuel(lex_lt_from, 21);
}

proof fn lex_adj_796()
    ensures
        lex_lt(Classifier::Topic__System__Emulators.tag(), Classifier::Topic__System__Filesystems.tag()),
{
    reveal_strlit("Topic :: System :: Emulators");
    reveal_strlit("Topic :: System :: Filesystems");
    reveal_with_fuel(lex_lt_from, 21);
}

proof fn lex_adj_797()
    ensures
        lex_lt(Classifier::Topic__System__Filesystems.tag(), Classifier::Topic__System__Hardware.tag()),
{
    reveal_strlit("Topic :: System :: Filesystems");
    reveal_strlit("Topic :: System :: Hardware");
    reveal_with_fuel(lex_lt_from, 21);
}

proof fn lex_adj_798()
    ensures
        lex_lt(Classifier::Topic__System__Hardware.tag(), Classifier::Topic__System__Hardware__HardwareDrivers.tag()),
{
    reveal_strlit("Topic :: System :: Hardware");
    reveal_strlit("Topic :: System :: Hardware :: Hardware Drivers");
    reveal_with_fuel(lex_lt_from, 29);
}

proof fn lex_adj_799()
    ensures
        lex_lt(Classifier::Topic__System__Hardware__HardwareDrivers.tag(), Classifier::Topic__System__Hardware__Mainframes.tag()),
{
    reveal_strlit("Topic :: System :: Hardware :: Hardware Drivers");
    reveal_strlit("Topic :: System :: Hardware :: Mainframes");
    reveal_with_fuel(lex_lt_from, 33);
}

proof fn lex_adj_800()
    ensures
        lex_lt(Classifier::Topic__System__Hardware__Mainframes.tag(), Classifier::Topic__System__Hardware__SymmetricMultiprocessing.tag()),
{
    reveal_strlit("Topic :: System :: Hardware :: Mainframes");
    reveal_strlit("Topic :: System :: Hardware :: Symmetric Multi-processing");
    reveal_with_fuel(lex_lt_from, 33);
}

proof fn lex_adj_801()
    ensures
        lex_lt(Classifier::Topic__System__Hardware__SymmetricMultiprocessing.tag(), Classifier::Topic__System__Hardware__UniversalSerialBusUSB.tag()),
{
    reveal_strlit("Topic :: System :: Hardware :: Symmetric Multi-processing");
    reveal_strlit("Topic :: System :: Hardware :: Universal Serial Bus (USB)");
    reveal_with_fuel(lex_lt_from, 33);
}

proof fn lex_adj_802()
    ensures
        lex_lt(Classifier::Topic__System__Hardware__UniversalSerialBusUSB.tag(), Classifier::Topic__System__Hardware__UniversalSerialBusUSB__Audio.tag()),
{
    reveal_strlit("Topic :: System :: Hardware :: Universal Serial Bus (USB)");
    reveal_strlit("Topic :: System :: Hardware :: Universal Serial Bus (USB) :: Audio");
    reveal_with_fuel(lex_lt_from, 59);
}

proof fn lex_adj_803()
    ensures
        lex_lt(Classifier::Topic__System__Hardware__UniversalSerialBusUSB__Audio.tag(), Classifier::Topic__System__Hardware__UniversalSerialBusUSB__AudioVideoAV.tag()),
{
    reveal_strlit("Topic :: System :: Hardware :: Universal Serial Bus (USB) :: Audio");
    reveal_strlit("Topic :: System :: Hardware :: Universal Serial Bus (USB) :: Audio/Video (AV)");
    reveal_with_fuel(lex_lt_from, 68);
}

proof fn lex_adj_804()
    ensures
        lex_lt(Classifier::Topic__System__Hardware__UniversalSerialBusUSB__AudioVideoAV.tag(), Classifier::Topic__System__Hardware__UniversalSerialBusUSB__CommunicationsDeviceClassCDC.tag()),
{
    reveal_strlit("Topic :: System :: Hardware :: Universal Serial Bus (USB) :: Audio/Video (AV)");
    reveal_strlit("Topic :: System :: Hardware :: Universal Serial Bus (USB) :: Communications Device Class (CDC)");
    reveal_with_fuel(lex_lt_from, 63);
}

proof fn lex_adj_805()
    ensures
        lex_lt(Classifier::Topic__System__Hardware__UniversalSerialBusUSB__CommunicationsDeviceClassCDC.tag(), Classifier::Topic__System__Hardware__UniversalSerialBusUSB__DiagnosticDevice.tag()),
{
    reveal_strlit("Topic :: System :: Hardware :: Universal Serial Bus (USB) :: Communications Device Class (CDC)");
    reveal_strlit("Topic :: System :: Hardware :: Universal Serial Bus (USB) :: Diagnostic Device");
    reveal_with_fuel(lex_lt_from, 63);
}

proof fn lex_adj_806()
    ensures
        lex_lt(Classifier::Topic__System__Hardware__UniversalSerialBusUSB__DiagnosticDevice.tag(), Classifier::Topic__System__Hardware__UniversalSerialBusUSB__Hub.tag()),
{
    reveal_strlit("Topic :: System :: Hardware :: Universal Serial Bus (USB) :: Diagnostic Device");
    reveal_strlit("Topic :: System :: Hardware :: Universal Serial Bus (USB) :: Hub");
    reveal_with_fuel(lex_lt_from, 63);
}

proof fn lex_adj_807()
    ensures
        lex_lt(Classifier::Topic__System__Hardware__UniversalSerialBusUSB__Hub.tag(), Classifier::Topic__System__Hardware__UniversalSerialBusUSB__HumanInterfaceDeviceHID.tag()),
{
    reveal_strlit("Topic :: System :: Hardware :: Universal Serial Bus (USB) :: Hub");
    reveal_strlit("Topic :: System :: Hardware :: Universal Serial Bus (USB) :: Human Interface Device (HID)");
    reveal_with_fuel(lex_lt_from, 65);
}

proof fn lex_adj_808()
    ensures
        lex_lt(Classifier::Topic__System__Hardware__UniversalSerialBusUSB__HumanInterfaceDeviceHID.tag(), Classifier::Topic__System__Hardware__UniversalSerialBusUSB__MassStorage.tag()),
{
    reveal_strlit("Topic :: System :: Hardware :: Universal Serial Bus (USB) :: Human Interface Device (HID)");
    reveal_strlit("Topic :: System :: Hardware :: Universal Serial Bus (USB) :: Mass Storage");
    reveal_with_fuel(lex_lt_from, 63);
}

proof fn lex_adj_809()
    ensures
        lex_lt(Classifier::Topic__System__Hardware__UniversalSerialBusUSB__MassStorage.tag(), Classifier::Topic__System__Hardware__UniversalSerialBusUSB__Miscellaneous.tag()),
{
    reveal_strlit("Topic :: System :: Hardware :: Universal Serial Bus (USB) :: Mass Storage");
    reveal_strlit("Topic :: System :: Hardware :: Universal Serial Bus (USB) :: Miscellaneous");
    reveal_with_fuel(lex_lt_from, 64);
}

proof fn lex_adj_810()
    ensures
        lex_lt(Classifier::Topic__System__Hardware__UniversalSerialBusUSB__Miscellaneous.tag(), Classifier::Topic__System__Hardware__UniversalSerialBusUSB__Printer.tag()),
{
    reveal_strlit("Topic :: System :: Hardware :: Universal Serial Bus (USB) :: Miscellaneous");
    reveal_strlit("Topic :: System :: Hardware :: Universal Serial Bus (USB) :: Printer");
    reveal_with_fuel(lex_lt_from, 63);
}

proof fn lex_adj_811()
    ensures
        lex_lt(Classifier::Topic__System__Hardware__UniversalSerialBusUSB__Printer.tag(), Classifier::Topic__System__Hardware__UniversalSerialBusUSB__SmartCard.tag()),
{
    reveal_strlit("Topic :: System :: Hardware :: Universal Serial Bus (USB) :: Printer");
    reveal_strlit("Topic :: System :: Hardware :: Universal Serial Bus (USB) :: Smart Card");
    reveal_with_fuel(lex_lt_from, 63);
}

proof fn lex_adj_812()
    ensures
        lex_lt(Classifier::Topic__System__Hardware__UniversalSerialBusUSB__SmartCard.tag(), Classifier::Topic__System__Hardware__UniversalSerialBusUSB__Vendor.tag()),
{
    reveal_strlit("Topic :: System :: Hardware :: Universal Serial Bus (USB) :: Smart Card");
    reveal_strlit("Topic :: System :: Hardware :: Universal Serial Bus (USB) :: Vendor");
    reveal_with_fuel(lex_lt_from, 63);
}

proof fn lex_adj_813()
    ensures
        lex_lt(Classifier::Topic__System__Hardware__UniversalSerialBusUSB__Vendor.tag(), Classifier::Topic__System__Hardware__UniversalSerialBusUSB__VideoUVC.tag()),
{
    reveal_strlit("Topic :: System :: Hardware :: Universal Serial Bus (USB) :: Vendor");
    reveal_strlit("Topic :: System :: Hardware :: Universal Serial Bus (USB) :: Video (UVC)");
    reveal_with_fuel(lex_lt_from, 64);
}

proof fn lex_adj_814()
    ensures
        lex_lt(Classifier::Topic__System__Hardware__UniversalSerialBusUSB__VideoUVC.tag(), Classifier::Topic__System__Hardware__UniversalSerialBusUSB__WirelessController.tag()),
{
    reveal_strlit("Topic :: System :: Hardware :: Universal Serial Bus (USB) :: Video (UVC)");
    reveal_strlit("Topic :: System :: Hardware :: Universal Serial Bus (USB) :: Wireless Controller");
    reveal_with_fuel(lex_lt_from, 63);
}

proof fn lex_adj_815()
    ensures
        lex_lt(Classifier::Topic__System__Hardware__UniversalSerialBusUSB__WirelessController.tag(), Classifier::Topic__System__InstallationSetup.tag()),
{
    reveal_strlit("Topic :: System :: Hardware :: Universal Serial Bus (USB) :: Wireless Controller");
    reveal_strlit("Topic :: System :: Installation/Setup");
    reveal_with_fuel(lex_lt_from, 21);
}

proof fn lex_adj_816()
    ensures
        lex_lt(Classifier::Topic__System__InstallationSetup.tag(), Classifier::Topic__System__Logging.tag()),
{
    reveal_strlit("Topic :: System :: Installation/Setup");
    reveal_strlit("Topic :: System :: Logging");
    reveal_with_fuel(lex_lt_from, 21);
}

proof fn lex_adj_817()
    ensures
        lex_lt(Classifier::Topic__System__Logging.tag(), Classifier::Topic__System__Monitoring.tag()),
{
    reveal_strlit("Topic :: System :: Logging");
    reveal_strlit("Topic :: System :: Monitoring");
    reveal_with_fuel(lex_lt_from, 21);
}

proof fn lex_adj_818()
    ensures
        lex_lt(Classifier::Topic__System__Monitoring.tag(), Classifier::Topic__System__Networking.tag()),
{
    reveal_strlit("Topic :: System :: Monitoring");
    reveal_strlit("Topic :: System :: Networking");
    reveal_with_fuel(lex_lt_from, 21);
}

proof fn lex_adj_819()
    ensures
        lex_lt(Classifier::Topic__System__Networking.tag(), Classifier::Topic__System__Networking__Firewalls.tag()),
{
    reveal_strlit("Topic :: System :: Networking");
    reveal_strlit("Topic :: System :: Networking :: Firewalls");
    reveal_with_fuel(lex_lt_from, 31);
}

proof fn lex_adj_820()
    ensures
        lex_lt(Classifier::Topic__System__Networking__Firewalls.tag(), Classifier::Topic__System__Networking__Monitoring.tag()),
{
    reveal_strlit("Topic :: System :: Networking :: Firewalls");
    reveal_strlit("Topic :: System :: Networking :: Monitoring");
    reveal_with_fuel(lex_lt_from, 35);
}

proof fn lex_adj_821()
    ensures
        lex_lt(Classifier::Topic__System__Networking__Monitoring.tag(), Classifier::Topic__System__Networking__Monitoring__HardwareWatchdog.tag()),
{
    reveal_strlit("Topic :: System :: Networking :: Monitoring");
    reveal_strlit("Topic :: System :: Networking :: Monitoring :: Hardware Watchdog");
    reveal_with_fuel(lex_lt_from, 45);
}

proof fn lex_adj_822()
    ensures
        lex_lt(Classifier::Topic__System__Networking__Monitoring__HardwareWatchdog.tag(), Classifier::Topic__System__Networking__TimeSynchronization.tag()),
{
    reveal_strlit("Topic :: System :: Networking :: Monitoring :: Hardware Watchdog");
    reveal_strlit("Topic :: System :: Networking :: Time Synchronization");
    reveal_with_fuel(lex_lt_from, 35);
}

proof fn lex_adj_823()
    ensures
        lex_lt(Classifier::Topic__System__Networking__TimeSynchronization.tag(), Classifier::Topic__System__OperatingSystem.tag()),
{
    reveal_strlit("Topic :: System :: Networking :: Time Synchronization");
    reveal_strlit("Topic :: System :: Operating System");
    reveal_with_fuel(lex_lt_from, 21);
}

proof fn lex_adj_824()
    ensures
        lex_lt(Classifier::Topic__System__OperatingSystem.tag(), Classifier::Topic__System__OperatingSystemKernels.tag()),
{
    reveal_strlit("Topic :: System :: Operating System");
    reveal_strlit("Topic :: System :: Operating System Kernels");
    reveal_with_fuel(lex_lt_from, 37);
}

proof fn lex_adj_825()
    ensures
        lex_lt(Classifier::Topic__System__OperatingSystemKernels.tag(), Classifier::Topic__System__OperatingSystemKernels__BSD.tag()),
{
    reveal_strlit("Topic :: System :: Operating System Kernels");
    reveal_strlit("Topic :: System :: Operating System Kernels :: BSD");
    reveal_with_fuel(lex_lt_from, 45);
}

proof fn lex_adj_826()
    ensures
        lex_lt(Classifier::Topic__System__OperatingSystemKernels__BSD.tag(), Classifier::Topic__System__OperatingSystemKernels__GNUHurd.tag()),
{
    reveal_strlit("Topic :: System :: Operating System Kernels :: BSD");
    reveal_strlit("Topic :: System :: Operating System Kernels :: GNU Hurd");
    reveal_with_fuel(lex_lt_from, 49);
}

proof fn lex_adj_827()
    ensures
        lex_lt(Classifier::Topic__System__OperatingSystemKernels__GNUHurd.tag(), Classifier::Topic__System__OperatingSystemKernels__Linux.tag()),
{
    reveal_strlit("Topic :: System :: Operating System Kernels :: GNU Hurd");
    reveal_strlit("Topic :: System :: Operating System Kernels :: Linux");
    reveal_with_fuel(lex_lt_from, 49);
}

proof fn lex_adj_828()
    ensures
        lex_lt(Classifier::Topic__System__OperatingSystemKernels__Linux.tag(), Classifier::Topic__System__PowerUPS.tag()),
{
    reveal_strlit("Topic :: System :: Operating System Kernels :: Linux");
    reveal_strlit("Topic :: System :: Power (UPS)");
    reveal_with_fuel(lex_lt_from, 21);
}

proof fn lex_adj_829()
    ensures
        lex_lt(Classifier::Topic__System__PowerUPS.tag(), Classifier::Topic__System__RecoveryTools.tag()),
{
    reveal_strlit("Topic :: System :: Power (UPS)");
    reveal_strlit("Topic :: System :: Recovery Tools");
    reveal_with_fuel(lex_lt_from, 21);
}

proof fn lex_adj_830()
    ensures
        lex_lt(Classifier::Topic__System__RecoveryTools.tag(), Classifier::Topic__System__Shells.tag()),
{
    reveal_strlit("Topic :: System :: Recovery Tools");
    reveal_strlit("Topic :: System :: Shells");
    reveal_with_fuel(lex_lt_from, 21);
}

proof fn lex_adj_831()
    ensures
        lex_lt(Classifier::Topic__System__Shells.tag(), Classifier::Topic__System__SoftwareDistribution.tag()),
{
    reveal_strlit("Topic :: System :: Shells");
    reveal_strlit("Topic :: System :: Software Distribution");
    reveal_with_fuel(lex_lt_from, 22);
}

proof fn lex_adj_832()
    ensures
        lex_lt(Classifier::Topic__System__SoftwareDistribution.tag(), Classifier::Topic__System__SystemShells.tag()),
{
    reveal_strlit("Topic :: System :: Software Distribution");
    reveal_strlit("Topic :: System :: System Shells");
    reveal_with_fuel(lex_lt_from, 22);
}

proof fn lex_adj_833()
    ensures
        lex_lt(Classifier::Topic__System__SystemShells.tag(), Classifier::Topic__System__SystemsAdministration.tag()),
{
    reveal_strlit("Topic :: System :: System Shells");
    reveal_strlit("Topic :: System :: Systems Administration");
    reveal_with_fuel(lex_lt_from, 27);
}

proof fn lex_adj_834()
    ensures
        lex_lt(Classifier::Topic__System__SystemsAdministration.tag(), Classifier::Topic__System__SystemsAdministration__AuthenticationDirectory.tag()),
{
    reveal_strlit("Topic :: System :: Systems Administration");
    reveal_strlit("Topic :: System :: Systems Administration :: Authentication/Directory");
    reveal_with_fuel(lex_lt_from, 43);
}

proof fn lex_adj_835()
    ensures
        lex_lt(Classifier::Topic__System__SystemsAdministration__AuthenticationDirectory.tag(), Classifier::Topic__System__SystemsAdministration__AuthenticationDirectory__LDAP.tag()),
{
    reveal_strlit("Topic :: System :: Systems Administration :: Authentication/Directory");
    reveal_strlit("Topic :: System :: Systems Administration :: Authentication/Directory :: LDAP");
    reveal_with_fuel(lex_lt_from, 71);
}

proof fn lex_adj_836()
    ensures
        lex_lt(Classifier::Topic__System__SystemsAdministration__AuthenticationDirectory__LDAP.tag(), Classifier::Topic__System__SystemsAdministration__AuthenticationDirectory__NIS.tag()),
{
    reveal_strlit("Topic :: System :: Systems Administration :: Authentication/Directory :: LDAP");
    reveal_strlit("Topic :: System :: Systems Administration :: Authentication/Directory :: NIS");
    reveal_with_fuel(lex_lt_from, 75);
}

proof fn lex_adj_837()
    ensures
        lex_lt(Classifier::Topic__System__SystemsAdministration__AuthenticationDirectory__NIS.tag(), Classifier::Topic__Terminals.tag()),
{
    reveal_strlit("Topic :: System :: Systems Administration :: Authentication/Directory :: NIS");
    reveal_strlit("Topic :: Terminals");
    reveal_with_fuel(lex_lt_from, 11);
}

proof fn lex_adj_838()
    ensures
        lex_lt(Classifier::Topic__Terminals.tag(), Classifier::Topic__Terminals__Serial.tag()),
{
    reveal_strlit("Topic :: Terminals");
    reveal_strlit("Topic :: Terminals :: Serial");
    reveal_with_fuel(lex_lt_from, 20);
}

proof fn lex_adj_839()
    ensures
        lex_lt(Classifier::Topic__Terminals__Serial.tag(), Classifier::Topic__Terminals__Telnet.tag()),
{
    reveal_strlit("Topic :: Terminals :: Serial");
    reveal_strlit("Topic :: Terminals :: Telnet");
    reveal_with_fuel(lex_lt_from, 24);
}

/// Adjacent tags within this stretch of the lexicographic order.
pub(crate) proof fn lemma_adjacent_lex_f(i: int)
    requires
        700 <= i < 840,
    ensures
        lex_lt(classifier_of_rank(i).tag(), classifier_of_rank(i + 1).tag()),
{
    if i == 700 {
        lex_adj_700();
    }
    if i == 701 {
        lex_adj_701();
    }
    if i == 702 {
        lex_adj_702();
    }
    if i == 703 {
        lex_adj_703();
    }
    if i == 704 {
        lex_adj_704();
    }
    if i == 705 {
        lex_adj_705();
    }
    if i == 706 {
        lex_adj_706();
    }
    if i == 707 {
        lex_adj_707();
    }
    if i == 708 {
        lex_adj_708();
    }
    if i == 709 {
        lex_adj_709();
    }
    if i == 710 {
        lex_adj_710();
    }
    if i == 711 {
        lex_adj_711();
    }
    if i == 712 {
        lex_adj_712();
    }
    if i == 713 {
        lex_adj_713();
    }
    if i == 714 {
        lex_adj_714();
    }
    if i == 715 {
        lex_adj_715();
    }
    if i == 716 {
        lex_adj_716();
    }
    if i == 717 {
        lex_adj_717();
    }
    if i == 718 {
        lex_adj_718();
    }
    if i == 719 {
        lex_adj_719();
    }
    if i == 720 {
        lex_adj_720();
    }
    if i == 721 {
        lex_adj_721();
    }
    if i == 722 {
        lex_adj_722();
    }
    if i == 723 {
        lex_adj_723();
    }
    if i == 724 {
        lex_adj_724();
    }
    if i == 725 {
        lex_adj_725();
    }
    if i == 726 {
        lex_adj_726();
    }
    if i == 727 {
        lex_adj_727();
    }
    if i == 728 {
        lex_adj_728();
    }
    if i == 729 {
        lex_adj_729();
    }
    if i == 730 {
        lex_adj_730();
    }
    if i == 731 {
        lex_adj_731();
    }
    if i == 732 {
        lex_adj_732();
    }
    if i == 733 {
        lex_adj_733();
    }
    if i == 734 {
        lex_adj_734();
    }
    if i == 735 {
        lex_adj_735();
    }
    if i == 736 {
        lex_adj_736();
    }
    if i == 737 {
        lex_adj_737();
    }
    if i == 738 {
        lex_adj_738();
    }
    if i == 739 {
        lex_adj_739();
    }
    if i == 740 {
        lex_adj_740();
    }
    if i == 741 {
        lex_adj_741();
    }
    if i == 742 {
        lex_adj_742();
    }
    if i == 743 {
        lex_adj_743();
    }
    if i == 744 {
        lex_adj_744();
    }
    if i == 745 {
        lex_adj_745();
    }
    if i == 746 {
        lex_adj_746();
    }
    if i == 747 {
        lex_adj_747();
    }
    if i == 748 {
        lex_adj_748();
    }
    if i == 749 {
        lex_adj_749();
    }
    if i == 750 {
        lex_adj_750();
    }
    if i == 751 {
        lex_adj_751();
    }
    if i == 752 {
        lex_adj_752();
    }
    if i == 753 {
        lex_adj_753();
    }
    if i == 754 {
        lex_adj_754();
    }
    if i == 755 {
        lex_adj_755();
    }
    if i == 756 {
        lex_adj_756();
    }
    if i == 757 {
        lex_adj_757();
    }
    if i == 758 {
        lex_adj_758();
    }
    if i == 759 {
        lex_adj_759();
    }
    if i == 760 {
        lex_adj_760();
    }
    if i == 761 {
        lex_adj_761();
    }
    if i == 762 {
        lex_adj_762();
    }
    if i == 763 {
        lex_adj_763();
    }
    if i == 764 {
        lex_adj_764();
    }
    if i == 765 {
        lex_adj_765();
    }
    if i == 766 {
        lex_adj_766();
    }
    if i == 767 {
        lex_adj_767();
    }
    if i == 768 {
        lex_adj_768();
    }
    if i == 769 {
        lex_adj_769();
    }
    if i == 770 {
        lex_adj_770();
    }
    if i == 771 {
        lex_adj_771();
    }
    if i == 772 {
        lex_adj_772();
    }
    if i == 773 {
        lex_adj_773();
    }
    if i == 774 {
        lex_adj_774();
    }
    if i == 775 {
        lex_adj_775();
    }
    if i == 776 {
        lex_adj_776();
    }
    if i == 777 {
        lex_adj_777();
    }
    if i == 778 {
        lex_adj_778();
    }
    if i == 779 {
        lex_adj_779();
    }
    if i == 780 {
        lex_adj_780();
    }
    if i == 781 {
        lex_adj_781();
    }
    if i == 782 {
        lex_adj_782();
    }
    if i == 783 {
        lex_adj_783();
    }
    if i == 784 {
        lex_adj_784();
    }
    if i == 785 {
        lex_adj_785();
    }
    if i == 786 {
        lex_adj_786();
    }
    if i == 787 {
        lex_adj_787();
    }
    if i == 788 {
        lex_adj_788();
    }
    if i == 789 {
        lex_adj_789();
    }
    if i == 790 {
        lex_adj_790();
    }
    if i == 791 {
        lex_adj_791();
    }
    if i == 792 {
        lex_adj_792();
    }
    if i == 793 {
        lex_adj_793();
    }
    if i == 794 {
        lex_adj_794();
    }
    if i == 795 {
        lex_adj_795();
    }
    if i == 796 {
        lex_adj_796();
    }
    if i == 797 {
        lex_adj_797();
    }
    if i == 798 {
        lex_adj_798();
    }
    if i == 799 {
        lex_adj_799();
    }
    if i == 800 {
        lex_adj_800();
    }
    if i == 801 {
        lex_adj_801();
    }
    if i == 802 {
        lex_adj_802();
    }
    if i == 803 {
        lex_adj_803();
    }
    if i == 804 {
        lex_adj_804();
    }
    if i == 805 {
        lex_adj_805();
    }
    if i == 806 {
        lex_adj_806();
    }
    if i == 807 {
        lex_adj_807();
    }
    if i == 808 {
        lex_adj_808();
    }
    if i == 809 {
        lex_adj_809();
    }
    if i == 810 {
        lex_adj_810();
    }
    if i == 811 {
        lex_adj_811();
    }
    if i == 812 {
        lex_adj_812();
    }
    if i == 813 {
        lex_adj_813();
    }
    if i == 814 {
        lex_adj_814();
    }
    if i == 815 {
        lex_adj_815();
    }
    if i == 816 {
        lex_adj_816();
    }
    if i == 817 {
        lex_adj_817();
    }
    if i == 818 {
        lex_adj_818();
    }
    if i == 819 {
        lex_adj_819();
    }
    if i == 820 {
        lex_adj_820();
    }
    if i == 821 {
        lex_adj_821();
    }
    if i == 822 {
        lex_adj_822();
    }
    if i == 823 {
        lex_adj_823();
    }
    if i == 824 {
        lex_adj_824();
    }
    if i == 825 {
        lex_adj_825();
    }
    if i == 826 {
        lex_adj_826();
    }
    if i == 827 {
        lex_adj_827();
    }
    if i == 828 {
        lex_adj_828();
    }
    if i == 829 {
        lex_adj_829();
    }
    if i == 830 {
        lex_adj_830();
    }
    if i == 831 {
        lex_adj_831();
    }
    if i == 832 {
        lex_adj_832();
    }
    if i == 833 {
        lex_adj_833();
    }
    if i == 834 {
        lex_adj_834();
    }
    if i == 835 {
        lex_adj_835();
    }
    if i == 836 {
        lex_adj_836();
    }
    if i == 837 {
        lex_adj_837();
    }
    if i == 838 {
        lex_adj_838();
    }
    if i == 839 {
        lex_adj_839();
    }
}

} // verus!
