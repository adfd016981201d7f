use vstd::prelude::*;

use crate::catalog::Classifier;
use crate::lexord::lex_lt;
use crate::lexord::lex_lt_from;
use crate::rank::classifier_of_rank;

verus! {

proof fn lex_adj_280()
    ensures
        lex_lt(Classifier::License__OSIApproved__ArtisticLicense.tag(), Classifier::License__OSIApproved__AttributionAssuranceLicense.tag()),
{
    reveal_strlit("License :: OSI Approved :: Artistic License");
    reveal_strlit("License :: OSI Approved :: Attribution Assurance License");
    reveal_with_fuel(lex_lt_from, 30);
}

proof fn lex_adj_281()
    ensures
        lex_lt(Classifier::License__OSIApproved__AttributionAssuranceLicense.tag(), Classifier::License__OSIApproved__BSDLicense.tag()),
{
    reveal_strlit("License :: OSI Approved :: Attribution Assurance License");
    reveal_strlit("License :: OSI Approved :: BSD License");
    reveal_with_fuel(lex_lt_from, 29);
}

proof fn lex_adj_282()
    ensures
        lex_lt(Classifier::License__OSIApproved__BSDLicense.tag(), Classifier::License__OSIApproved__BlueOakModelLicenseBlueOak1_0_0.tag()),
{
    reveal_strlit("License :: OSI Approved :: BSD License");
    reveal_strlit("License :: OSI Approved :: Blue Oak Model License (BlueOak-1.0.0)");
    reveal_with_fuel(lex_lt_from, 30);
}

proof fn lex_adj_283()
    ensures
        lex_lt(Classifier::License__OSIApproved__BlueOakModelLicenseBlueOak1_0_0.tag(), Classifier::License__OSIApproved__BoostSoftwareLicense1_0BSL1_0.tag()),
{
    reveal_strlit("License :: OSI Approved :: Blue Oak Model License (BlueOak-1.0.0)");
    reveal_strlit("License :: OSI Approved :: Boost Software License 1.0 (BSL-1.0)");
    reveal_with_fuel(lex_lt_from, 30);
}

proof fn lex_adj_284()
    ensures
        lex_lt(Classifier::License__OSIApproved__BoostSoftwareLicense1_0BSL1_0.tag(), Classifier::License__OSIApproved__CEACNRSInriaLogicielLibreLicense.tag()),
{
    reveal_strlit("License :: OSI Approved :: Boost Software License 1.0 (BSL-1.0)");
    reveal_strlit("License :: OSI Approved :: CEA CNRS Inria Logiciel Libre License, version 2.1 (CeCILL-2.1)");
    reveal_with_fuel(lex_lt_from, 29);
}

proof fn lex_adj_285()
    ensures
        lex_lt(Classifier::License__OSIApproved__CEACNRSInriaLogicielLibreLicense.tag(), Classifier::License__OSIApproved__CMULicenseMITCMU.tag()),
{
    reveal_strlit("License :: OSI Approved :: CEA CNRS Inria Logiciel Libre License, version 2.1 (CeCILL-2.1)");
    reveal_strlit("License :: OSI Approved :: CMU License (MIT-CMU)");
    reveal_with_fuel(lex_lt_from, 30);
}

proof fn lex_adj_286()
    ensures
        lex_lt(Classifier::License__OSIApproved__CMULicenseMITCMU.tag(), Classifier::License__OSIApproved__CommonDevelopmentandDistributionLicense1_0CDDL1_0.tag()),
{
    reveal_strlit("License :: OSI Approved :: CMU License (MIT-CMU)");
    reveal_strlit("License :: OSI Approved :: Common Development and Distribution License 1.0 (CDDL-1.0)");
    reveal_with_fuel(lex_lt_from, 30);
}

proof fn lex_adj_287()
    ensures
        lex_lt(Classifier::License__OSIApproved__CommonDevelopmentandDistributionLicense1_0CDDL1_0.tag(), Classifier::License__OSIApproved__CommonPublicLicense.tag()),
{
    reveal_strlit("License :: OSI Approved :: Common Development and Distribution License 1.0 (CDDL-1.0)");
    reveal_strlit("License :: OSI Approved :: Common Public License");
    reveal_with_fuel(lex_lt_from, 36);
}

proof fn lex_adj_288()
    ensures
        lex_lt(Classifier::License__OSIApproved__CommonPublicLicense.tag(), Classifier::License__OSIApproved__EclipsePublicLicense1_0EPL1_0.tag()),
{
    reveal_strlit("License :: OSI Approved :: Common Public License");
    reveal_strlit("License :: OSI Approved :: Eclipse Public License 1.0 (EPL-1.0)");
    reveal_with_fuel(lex_lt_from, 29);
}

proof fn lex_adj_289()
    ensures
        lex_lt(Classifier::License__OSIApproved__EclipsePublicLicense1_0EPL1_0.tag(), Classifier::License__OSIApproved__EclipsePublicLicense2_0EPL2_0.tag()),
{
    reveal_strlit("License :: OSI Approved :: Eclipse Public License 1.0 (EPL-1.0)");
    reveal_strlit("License :: OSI Approved :: Eclipse Public License 2.0 (EPL-2.0)");
    reveal_with_fuel(lex_lt_from, 52);
}

proof fn lex_adj_290()
    ensures
        lex_lt(Classifier::License__OSIApproved__EclipsePublicLicense2_0EPL2_0.tag(), Classifier::License__OSIApproved__EducationalCommunityLicense.tag()),
{
    reveal_strlit("License :: OSI Approved :: Eclipse Public License 2.0 (EPL-2.0)");
    reveal_strlit("License :: OSI Approved :: Educational Community License, Version 2.0 (ECL-2.0)");
    reveal_with_fuel(lex_lt_from, 30);
}

proof fn lex_adj_291()
    ensures
        lex_lt(Classifier::License__OSIApproved__EducationalCommunityLicense.tag(), Classifier::License__OSIApproved__EiffelForumLicense.tag()),
{
    reveal_strlit("License :: OSI Approved :: Educational Community License, Version 2.0 (ECL-2.0)");
    reveal_strlit("License :: OSI Approved :: Eiffel Forum License");
    reveal_with_fuel(lex_lt_from, 30);
}

proof fn lex_adj_292()
    ensures
        lex_lt(Classifier::License__OSIApproved__EiffelForumLicense.tag(), Classifier::License__OSIApproved__EuropeanUnionPublicLicence1_0EUPL1_0.tag()),
{
    reveal_strlit("License :: OSI Approved :: Eiffel Forum License");
    reveal_strlit("License :: OSI Approved :: European Union Public Licence 1.0 (EUPL 1.0)");
    reveal_with_fuel(lex_lt_from, 30);
}

proof fn lex_adj_293()
    ensures
        lex_lt(Classifier::License__OSIApproved__EuropeanUnionPublicLicence1_0EUPL1_0.tag(), Classifier::License__OSIApproved__EuropeanUnionPublicLicence1_1EUPL1_1.tag()),
{
    reveal_strlit("License :: OSI Approved :: European Union Public Licence 1.0 (EUPL 1.0)");
    reveal_strlit("License :: OSI Approved :: European Union Public Licence 1.1 (EUPL 1.1)");
    reveal_with_fuel(lex_lt_from, 61);
}

proof fn lex_adj_294()
    ensures
        lex_lt(Classifier::License__OSIApproved__EuropeanUnionPublicLicence1_1EUPL1_1.tag(), Classifier::License__OSIApproved__EuropeanUnionPublicLicence1_2EUPL1_2.tag()),
{
    reveal_strlit("License :: OSI Approved :: European Union Public Licence 1.1 (EUPL 1.1)");
    reveal_strlit("License :: OSI Approved :: European Union Public Licence 1.2 (EUPL 1.2)");
    reveal_with_fuel(lex_lt_from, 61);
}

proof fn lex_adj_295()
    ensures
        lex_lt(Classifier::License__OSIApproved__EuropeanUnionPublicLicence1_2EUPL1_2.tag(), Classifier::License__OSIApproved__GNUAfferoGeneralPublicLicensev3.tag()),
{
    reveal_strlit("License :: OSI Approved :: European Union Public Licence 1.2 (EUPL 1.2)");
    reveal_strlit("License :: OSI Approved :: GNU Affero General Public License v3");
    reveal_with_fuel(lex_lt_from, 29);
}

proof fn lex_adj_296()
    ensures
        lex_lt(Classifier::License__OSIApproved__GNUAfferoGeneralPublicLicensev3.tag(), Classifier::License__OSIApproved__GNUAfferoGeneralPublicLicensev3orlaterAGPLv3plus.tag()),
{
    reveal_strlit("License :: OSI Approved :: GNU Affero General Public License v3");
    reveal_strlit("License :: OSI Approved :: GNU Affero General Public License v3 or later (AGPLv3+)");
    reveal_with_fuel(lex_lt_from, 65);
}

proof fn lex_adj_297()
    ensures
        lex_lt(Classifier::License__OSIApproved__GNUAfferoGeneralPublicLicensev3orlaterAGPLv3plus.tag(), Classifier::License__OSIApproved__GNUFreeDocumentationLicenseFDL.tag()),
{
    reveal_strlit("License :: OSI Approved :: GNU Affero General Public License v3 or later (AGPLv3+)");
    reveal_strlit("License :: OSI Approved :: GNU Free Documentation License (FDL)");
    reveal_with_fuel(lex_lt_from, 33);
}

proof fn lex_adj_298()
    ensures
        lex_lt(Classifier::License__OSIApproved__GNUFreeDocumentationLicenseFDL.tag(), Classifier::License__OSIApproved__GNUGeneralPublicLicenseGPL.tag()),
{
    reveal_strlit("License :: OSI Approved :: GNU Free Documentation License (FDL)");
    reveal_strlit("License :: OSI Approved :: GNU General Public License (GPL)");
    reveal_with_fuel(lex_lt_from, 33);
}

proof fn lex_adj_299()
    ensures
        lex_lt(Classifier::License__OSIApproved__GNUGeneralPublicLicenseGPL.tag(), Classifier::License__OSIApproved__GNUGeneralPublicLicensev2GPLv2.tag()),
{
    reveal_strlit("License :: OSI Approved :: GNU General Public License (GPL)");
    reveal_strlit("License :: OSI Approved :: GNU General Public License v2 (GPLv2)");
    reveal_with_fuel(lex_lt_from, 56);
}

proof fn lex_adj_300()
    ensures
        lex_lt(Classifier::License__OSIApproved__GNUGeneralPublicLicensev2GPLv2.tag(), Classifier::License__OSIApproved__GNUGeneralPublicLicensev2orlaterGPLv2plus.tag()),
{
    reveal_strlit("License :: OSI Approved :: GNU General Public License v2 (GPLv2)");
    reveal_strlit("License :: OSI Approved :: GNU General Public License v2 or later (GPLv2+)");
    reveal_with_fuel(lex_lt_from, 59);
}

proof fn lex_adj_301()
    ensures
        lex_lt(Classifier::License__OSIApproved__GNUGeneralPublicLicensev2orlaterGPLv2plus.tag(), Classifier::License__OSIApproved__GNUGeneralPublicLicensev3GPLv3.tag()),
{
    reveal_strlit("License :: OSI Approved :: GNU General Public License v2 or later (GPLv2+)");
    reveal_strlit("License :: OSI Approved :: GNU General Public License v3 (GPLv3)");
    reveal_with_fuel(lex_lt_from, 57);
}

proof fn lex_adj_302()
    ensures
        lex_lt(Classifier::License__OSIApproved__GNUGeneralPublicLicensev3GPLv3.tag(), Classifier::License__OSIApproved__GNUGeneralPublicLicensev3orlaterGPLv3plus.tag()),
{
    reveal_strlit("License :: OSI Approved :: GNU General Public License v3 (GPLv3)");
    reveal_strlit("License :: OSI Approved :: GNU General Public License v3 or later (GPLv3+)");
    reveal_with_fuel(lex_lt_from, 59);
}

proof fn lex_adj_303()
    ensures
        lex_lt(Classifier::License__OSIApproved__GNUGeneralPublicLicensev3orlaterGPLv3plus.tag(), Classifier::License__OSIApproved__GNULesserGeneralPublicLicensev2LGPLv2.tag()),
{
    reveal_strlit("License :: OSI Approved :: GNU General Public License v3 or later (GPLv3+)");
    reveal_strlit("License :: OSI Approved :: GNU Lesser General Public License v2 (LGPLv2)");
    reveal_with_fuel(lex_lt_from, 33);
}

proof fn lex_adj_304()
    ensures
        lex_lt(Classifier::License__OSIApproved__GNULesserGeneralPublicLicensev2LGPLv2.tag(), Classifier::License__OSIApproved__GNULesserGeneralPublicLicensev2orlaterLGPLv2plus.tag()),
{
    reveal_strlit("License :: OSI Approved :: GNU Lesser General Public License v2 (LGPLv2)");
    reveal_strlit("License :: OSI Approved :: GNU Lesser General Public License v2 or later (LGPLv2+)");
    reveal_with_fuel(lex_lt_from, 66);
}

proof fn lex_adj_305()
    ensures
        lex_lt(Classifier::License__OSIApproved__GNULesserGeneralPublicLicensev2orlaterLGPLv2plus.tag(), Classifier::License__OSIApproved__GNULesserGeneralPublicLicensev3LGPLv3.tag()),
{
    reveal_strlit("License :: OSI Approved :: GNU Lesser General Public License v2 or later (LGPLv2+)");
    reveal_strlit("License :: OSI Approved :: GNU Lesser General Public License v3 (LGPLv3)");
    reveal_with_fuel(lex_lt_from, 64);
}

proof fn lex_adj_306()
    ensures
        lex_lt(Classifier::License__OSIApproved__GNULesserGeneralPublicLicensev3LGPLv3.tag(), Classifier::License__OSIApproved__GNULesserGeneralPublicLicensev3orlaterLGPLv3plus.tag()),
{
    reveal_strlit("License :: OSI Approved :: GNU Lesser General Public License v3 (LGPLv3)");
    reveal_strlit("License :: OSI Approved :: GNU Lesser General Public License v3 or later (LGPLv3+)");
    reveal_with_fuel(lex_lt_from, 66);
}

proof fn lex_adj_307()
    ensures
        lex_lt(Classifier::License__OSIApproved__GNULesserGeneralPublicLicensev3orlaterLGPLv3plus.tag(), Classifier::License__OSIApproved__GNULibraryorLesserGeneralPublicLicenseLGPL.tag()),
{
    reveal_strlit("License :: OSI Approved :: GNU Lesser General Public License v3 or later (LGPLv3+)");
    reveal_strlit("License :: OSI Approved :: GNU Library or Lesser General Public License (LGPL)");
    reveal_with_fuel(lex_lt_from, 34);
}

proof fn lex_adj_308()
    ensures
        lex_lt(Classifier::License__OSIApproved__GNULibraryorLesserGeneralPublicLicenseLGPL.tag(), Classifier::License__OSIApproved__HistoricalPermissionNoticeandDisclaimerHPND.tag()),
{
    reveal_strlit("License :: OSI Approved :: GNU Library or Lesser General Public License (LGPL)");
    reveal_strlit("License :: OSI Approved :: Historical Permission Notice and Disclaimer (HPND)");
    reveal_with_fuel(lex_lt_from, 29);
}

proof fn lex_adj_309()
    ensures
        lex_lt(Classifier::License__OSIApproved__HistoricalPermissionNoticeandDisclaimerHPND.tag(), Classifier::License__OSIApproved__IBMPublicLicense.tag()),
{
    reveal_strlit("License :: OSI Approved :: Historical Permission Notice and Disclaimer (HPND)");
    reveal_strlit("License :: OSI Approved :: IBM Public License");
    reveal_with_fuel(lex_lt_from, 29);
}

proof fn lex_adj_310()
    ensures
        lex_lt(Classifier::License__OSIApproved__IBMPublicLicense.tag(), Classifier::License__OSIApproved__ISCLicenseISCL.tag()),
{
    reveal_strlit("License :: OSI Approved :: IBM Public License");
    reveal_strlit("License :: OSI Approved :: ISC License (ISCL)");
    reveal_with_fuel(lex_lt_from, 30);
}

proof fn lex_adj_311()
    ensures
        lex_lt(Classifier::License__OSIApproved__ISCLicenseISCL.tag(), Classifier::License__OSIApproved__IntelOpenSourceLicense.tag()),
{
    reveal_strlit("License :: OSI Approved :: ISC License (ISCL)");
    reveal_strlit("License :: OSI Approved :: Intel Open Source License");
    reveal_with_fuel(lex_lt_from, 30);
}

proof fn lex_adj_312()
    ensures
        lex_lt(Classifier::License__OSIApproved__IntelOpenSourceLicense.tag(), Classifier::License__OSIApproved__JabberOpenSourceLicense.tag()),
{
    reveal_strlit("License :: OSI Approved :: Intel Open Source License");
    reveal_strlit("License :: OSI Approved :: Jabber Open Source License");
    reveal_with_fuel(lex_lt_from, 29);
}

proof fn lex_adj_313()
    ensures
        lex_lt(Classifier::License__OSIApproved__JabberOpenSourceLicense.tag(), Classifier::License__OSIApproved__MITLicense.tag()),
{
    reveal_strlit("License :: OSI Approved :: Jabber Open Source License");
    reveal_strlit("License :: OSI Approved :: MIT License");
    reveal_with_fuel(lex_lt_from, 29);
}

proof fn lex_adj_314()
    ensures
        lex_lt(Classifier::License__OSIApproved__MITLicense.tag(), Classifier::License__OSIApproved__MITNoAttributionLicenseMIT0.tag()),
{
    reveal_strlit("License :: OSI Approved :: MIT License");
    reveal_strlit("License :: OSI Approved :: MIT No Attribution License (MIT-0)");
    reveal_with_fuel(lex_lt_from, 33);
}

proof fn lex_adj_315()
    ensures
        lex_lt(Classifier::License__OSIApproved__MITNoAttributionLicenseMIT0.tag(), Classifier::License__OSIApproved__MITRECollaborativeVirtualWorkspaceLicenseCVW.tag()),
{
    reveal_strlit("License :: OSI Approved :: MIT No Attribution License (MIT-0)");
    reveal_strlit("License :: OSI Approved :: MITRE Collaborative Virtual Workspace License (CVW)");
    reveal_with_fuel(lex_lt_from, 32);
}

proof fn lex_adj_316()
    ensures
        lex_lt(Classifier::License__OSIApproved__MITRECollaborativeVirtualWorkspaceLicenseCVW.tag(), Classifier::License__OSIApproved__MirOSLicenseMirOS.tag()),
{
    reveal_strlit("License :: OSI Approved :: MITRE Collaborative Virtual Workspace License (CVW)");
    reveal_strlit("License :: OSI Approved :: MirOS License (MirOS)");
    reveal_with_fuel(lex_lt_from, 30);
}

proof fn lex_adj_317()
    ensures
        lex_lt(Classifier::License__OSIApproved__MirOSLicenseMirOS.tag(), Classifier::License__OSIApproved__MotosotoLicense.tag()),
{
    reveal_strlit("License :: OSI Approved :: MirOS License (MirOS)");
    reveal_strlit("License :: OSI Approved :: Motosoto License");
    reveal_with_fuel(lex_lt_from, 30);
}

proof fn lex_adj_318()
    ensures
        lex_lt(Classifier::License__OSIApproved__MotosotoLicense.tag(), Classifier::License__OSIApproved__MozillaPublicLicense1_0MPL.tag()),
{
    reveal_strlit("License :: OSI Approved :: Motosoto License");
    reveal_strlit("License :: OSI Approved :: Mozilla Public License 1.0 (MPL)");
    reveal_with_fuel(lex_lt_from, 31);
}

proof fn lex_adj_319()
    ensures
        lex_lt(Classifier::License__OSIApproved__MozillaPublicLicense1_0MPL.tag(), Classifier::License__OSIApproved__MozillaPublicLicense1_1MPL1_1.tag()),
{
    reveal_strlit("License :: OSI Approved :: Mozilla Public License 1.0 (MPL)");
    reveal_strlit("License :: OSI Approved :: Mozilla Public License 1.1 (MPL 1.1)");
    reveal_with_fuel(lex_lt_from, 54);
}

proof fn lex_adj_320()
    ensures
        lex_lt(Classifier::License__OSIApproved__MozillaPublicLicense1_1MPL1_1.tag(), Classifier::License__OSIApproved__MozillaPublicLicense2_0MPL2_0.tag()),
{
    reveal_strlit("License :: OSI Approved :: Mozilla Public License 1.1 (MPL 1.1)");
    reveal_strlit("License :: OSI Approved :: Mozilla Public License 2.0 (MPL 2.0)");
    reveal_with_fuel(lex_lt_from, 52);
}

proof fn lex_adj_321()
    ensures
        lex_lt(Classifier::License__OSIApproved__MozillaPublicLicense2_0MPL2_0.tag(), Classifier::License__OSIApproved__MulanPermissiveSoftwareLicensev2MulanPSL2_0.tag()),
{
    reveal_strlit("License :: OSI Approved :: Mozilla Public License 2.0 (MPL 2.0)");
    reveal_strlit("License :: OSI Approved :: Mulan Permissive Software License v2 (MulanPSL-2.0)");
    reveal_with_fuel(lex_lt_from, 30);
}

proof fn lex_adj_322()
    ensures
        lex_lt(Classifier::License__OSIApproved__MulanPermissiveSoftwareLicensev2MulanPSL2_0.tag(), Classifier::License__OSIApproved__NASAOpenSourceAgreementv1_3NASA1_3.tag()),
{
    reveal_strlit("License :: OSI Approved :: Mulan Permissive Software License v2 (MulanPSL-2.0)");
    reveal_strlit("License :: OSI Approved :: NASA Open Source Agreement v1.3 (NASA-1.3)");
    reveal_with_fuel(lex_lt_from, 29);
}

proof fn lex_adj_323()
    ensures
        lex_lt(Classifier::License__OSIApproved__NASAOpenSourceAgreementv1_3NASA1_3.tag(), Classifier::License__OSIApproved__NethackGeneralPublicLicense.tag()),
{
    reveal_strlit("License :: OSI Approved :: NASA Open Source Agreement v1.3 (NASA-1.3)");
    reveal_strlit("License :: OSI Approved :: Nethack General Public License");
    reveal_with_fuel(lex_lt_from, 30);
}

proof fn lex_adj_324()
    ensures
        lex_lt(Classifier::License__OSIApproved__NethackGeneralPublicLicense.tag(), Classifier::License__OSIApproved__NokiaOpenSourceLicense.tag()),
{
    reveal_strlit("License :: OSI Approved :: Nethack General Public License");
    reveal_strlit("License :: OSI Approved :: Nokia Open Source License");
    reveal_with_fuel(lex_lt_from, 30);
}

proof fn lex_adj_325()
    ensures
        lex_lt(Classifier::License__OSIApproved__NokiaOpenSourceLicense.tag(), Classifier::License__OSIApproved__OpenGroupTestSuiteLicense.tag()),
{
    reveal_strlit("License :: OSI Approved :: Nokia Open Source License");
    reveal_strlit("License :: OSI Approved :: Open Group Test Suite License");
    reveal_with_fuel(lex_lt_from, 29);
}

proof fn lex_adj_326()
    ensures
        lex_lt(Classifier::License__OSIApproved__OpenGroupTestSuiteLicense.tag(), Classifier::License__OSIApproved__OpenSoftwareLicense3_0OSL3_0.tag()),
{
    reveal_strlit("License :: OSI Approved :: Open Group Test Suite License");
    reveal_strlit("License :: OSI Approved :: Open Software License 3.0 (OSL-3.0)");
    reveal_with_fuel(lex_lt_from, 34);
}

proof fn lex_adj_327()
    ensures
        lex_lt(Classifier::License__OSIApproved__OpenSoftwareLicense3_0OSL3_0.tag(), Classifier::License__OSIApproved__PostgreSQLLicense.tag()),
{
    reveal_strlit("License :: OSI Approved :: Open Software License 3.0 (OSL-3.0)");
    reveal_strlit("License :: OSI Approved :: PostgreSQL License");
    reveal_with_fuel(lex_lt_from, 29);
}

proof fn lex_adj_328()
    ensures
        lex_lt(Classifier::License__OSIApproved__PostgreSQLLicense.tag(), Classifier::License__OSIApproved__PythonLicenseCNRIPythonLicense.tag()),
{
    reveal_strlit("License :: OSI Approved :: PostgreSQL License");
    reveal_strlit("License :: OSI Approved :: Python License (CNRI Python License)");
    reveal_with_fuel(lex_lt_from, 30);
}

proof fn lex_adj_329()
    ensures
        lex_lt(Classifier::License__OSIApproved__PythonLicenseCNRIPythonLicense.tag(), Classifier::License__OSIApproved__PythonSoftwareFoundationLicense.tag()),
{
    reveal_strlit("License :: OSI Approved :: Python License (CNRI Python License)");
    reveal_strlit("License :: OSI Approved :: Python Software Foundation License");
    reveal_with_fuel(lex_lt_from, 36);
}

proof fn lex_adj_330()
    ensures
        lex_lt(Classifier::License__OSIApproved__PythonSoftwareFoundationLicense.tag(), Classifier::License__OSIApproved__QtPublicLicenseQPL.tag()),
{
    reveal_strlit("License :: OSI Approved :: Python Software Foundation License");
    reveal_strlit("License :: OSI Approved :: Qt Public License (QPL)");
    reveal_with_fuel(lex_lt_from, 29);
}

proof fn lex_adj_331()
    ensures
        lex_lt(Classifier::License__OSIApproved__QtPublicLicenseQPL.tag(), Classifier::License__OSIApproved__RicohSourceCodePublicLicense.tag()),
{
    reveal_strlit("License :: OSI Approved :: Qt Public License (QPL)");
    reveal_strlit("License :: OSI Approved :: Ricoh Source Code Public License");
    reveal_with_fuel(lex_lt_from, 29);
}

proof fn lex_adj_332()
    ensures
        lex_lt(Classifier::License__OSIApproved__RicohSourceCodePublicLicense.tag(), Classifier::License__OSIApproved__SILOpenFontLicense1_1OFL1_1.tag()),
{
    reveal_strlit("License :: OSI Approved :: Ricoh Source Code Public License");
    reveal_strlit("License :: OSI Approved :: SIL Open Font License 1.1 (OFL-1.1)");
    reveal_with_fuel(lex_lt_from, 29);
}

proof fn lex_adj_333()
    ensures
        lex_lt(Classifier::License__OSIApproved__SILOpenFontLicense1_1OFL1_1.tag(), Classifier::License__OSIApproved__SleepycatLicense.tag()),
{
    reveal_strlit("License :: OSI Approved :: SIL Open Font License 1.1 (OFL-1.1)");
    reveal_strlit("License :: OSI Approved :: Sleepycat License");
    reveal_with_fuel(lex_lt_from, 30);
}

proof fn lex_adj_334()
    ensures
        lex_lt(Classifier::License__OSIApproved__SleepycatLicense.tag(), Classifier::License__OSIApproved__SunIndustryStandardsSourceLicenseSISSL.tag()),
{
    reveal_strlit("License :: OSI Approved :: Sleepycat License");
    reveal_strlit("License :: OSI Approved :: Sun Industry Standards Source License (SISSL)");
    reveal_with_fuel(lex_lt_from, 30);
}

proof fn lex_adj_335()
    ensures
        lex_lt(Classifier::License__OSIApproved__SunIndustryStandardsSourceLicenseSISSL.tag(), Classifier::License__OSIApproved__SunPublicLicense.tag()),
{
    reveal_strlit("License :: OSI Approved :: Sun Industry Standards Source License (SISSL)");
    reveal_strlit("License :: OSI Approved :: Sun Public License");
    reveal_with_fuel(lex_lt_from, 33);
}

proof fn lex_adj_336()
    ensures
        lex_lt(Classifier::License__OSIApproved__SunPublicLicense.tag(), Classifier::License__OSIApproved__TheUnlicenseUnlicense.tag()),
{
    reveal_strlit("License :: OSI Approved :: Sun Public License");
    reveal_strlit("License :: OSI Approved :: The Unlicense (Unlicense)");
    reveal_with_fuel(lex_lt_from, 29);
}

proof fn lex_adj_337()
    ensures
        lex_lt(Classifier::License__OSIApproved__TheUnlicenseUnlicense.tag(), Classifier::License__OSIApproved__UniversalPermissiveLicenseUPL.tag()),
{
    reveal_strlit("License :: OSI Approved :: The Unlicense (Unlicense)");
    reveal_strlit("License :: OSI Approved :: Universal Permissive License (UPL)");
    reveal_with_fuel(lex_lt_from, 29);
}

proof fn lex_adj_338()
    ensures
        lex_lt(Classifier::License__OSIApproved__UniversalPermissiveLicenseUPL.tag(), Classifier::License__OSIApproved__UniversityofIllinoisNCSAOpenSourceLicense.tag()),
{
    reveal_strlit("License :: OSI Approved :: Universal Permissive License (UPL)");
    reveal_strlit("License :: OSI Approved :: University of Illinois/NCSA Open Source License");
    reveal_with_fuel(lex_lt_from, 36);
}

proof fn lex_adj_339()
    ensures
        lex_lt(Classifier::License__OSIApproved__UniversityofIllinoisNCSAOpenSourceLicense.tag(), Classifier::License__OSIApproved__VovidaSoftwareLicense1_0.tag()),
{
    reveal_strlit("License :: OSI Approved :: University of Illinois/NCSA Open Source License");
    reveal_strlit("License :: OSI Approved :: Vovida Software License 1.0");
    reveal_with_fuel(lex_lt_from, 29);
}

proof fn lex_adj_340()
    ensures
        lex_lt(Classifier::License__OSIApproved__VovidaSoftwareLicense1_0.tag(), Classifier::License__OSIApproved__W3CLicense.tag()),
{
    reveal_strlit("License :: OSI Approved :: Vovida Software License 1.0");
    reveal_strlit("License :: OSI Approved :: W3C License");
    reveal_with_fuel(lex_lt_from, 29);
}

proof fn lex_adj_341()
    ensures
        lex_lt(Classifier::License__OSIApproved__W3CLicense.tag(), Classifier::License__OSIApproved__X_NetLicense.tag()),
{
    reveal_strlit("License :: OSI Approved :: W3C License");
    reveal_strlit("License :: OSI Approved :: X.Net License");
    reveal_with_fuel(lex_lt_from, 29);
}

proof fn lex_adj_342()
    ensures
        lex_lt(Classifier::License__OSIApproved__X_NetLicense.tag(), Classifier::License__OSIApproved__ZeroClauseBSD0BSD.tag()),
{
    reveal_strlit("License :: OSI Approved :: X.Net License");
    reveal_strlit("License :: OSI Approved :: Zero-Clause BSD (0BSD)");
    reveal_with_fuel(lex_lt_from, 29);
}

proof fn lex_adj_343()
    ensures
        lex_lt(Classifier::License__OSIApproved__ZeroClauseBSD0BSD.tag(), Classifier::License__OSIApproved__ZopePublicLicense.tag()),
{
    reveal_strlit("License :: OSI Approved :: Zero-Clause BSD (0BSD)");
    reveal_strlit("License :: OSI Approved :: Zope Public License");
    reveal_with_fuel(lex_lt_from, 30);
}

proof fn lex_adj_344()
    ensures
        lex_lt(Classifier::License__OSIApproved__ZopePublicLicense.tag(), Classifier::License__OSIApproved__zliblibpngLicense.tag()),
{
    reveal_strlit("License :: OSI Approved :: Zope Public License");
    reveal_strlit("License :: OSI Approved :: zlib/libpng License");
    reveal_with_fuel(lex_lt_from, 29);
}

proof fn lex_adj_345()
    ensures
        lex_lt(Classifier::License__OSIApproved__zliblibpngLicense.tag(), Classifier::License__OtherProprietaryLicense.tag()),
{
    reveal_strlit("License :: OSI Approved :: zlib/libpng License");
    reveal_strlit("License :: Other/Proprietary License");
    reveal_with_fuel(lex_lt_from, 14);
}

proof fn lex_adj_346()
    ensures
        lex_lt(Classifier::License__OtherProprietaryLicense.tag(), Classifier::License__PublicDomain.tag()),
{
    reveal_strlit("License :: Other/Proprietary License");
    reveal_strlit("License :: Public Domain");
    reveal_with_fuel(lex_lt_from, 13);
}

proof fn lex_adj_347()
    ensures
        lex_lt(Classifier::License__PublicDomain.tag(), Classifier::License__RepozePublicLicense.tag()),
{
    reveal_strlit("License :: Public Domain");
    reveal_strlit("License :: Repoze Public License");
    reveal_with_fuel(lex_lt_from, 13);
}

proof fn lex_adj_348()
    ensures
        lex_lt(Classifier::License__RepozePublicLicense.tag(), Classifier::NaturalLanguage__Afrikaans.tag()),
{
    reveal_strlit("License :: Repoze Public License");
    reveal_strlit("Natural Language :: Afrikaans");
    reveal_with_fuel(lex_lt_from, 2);
}

proof fn lex_adj_349()
    ensures
        lex_lt(Classifier::NaturalLanguage__Afrikaans.tag(), Classifier::NaturalLanguage__Arabic.tag()),
{
    reveal_strlit("Natural Language :: Afrikaans");
    reveal_strlit("Natural Language :: Arabic");
    reveal_with_fuel(lex_lt_from, 23);
}

proof fn lex_adj_350()
    ensures
        lex_lt(Classifier::NaturalLanguage__Arabic.tag(), Classifier::NaturalLanguage__Basque.tag()),
{
    reveal_strlit("Natural Language :: Arabic");
    reveal_strlit("Natural Language :: Basque");
    reveal_with_fuel(lex_lt_from, 22);
}

proof fn lex_adj_351()
    ensures
        lex_lt(Classifier::NaturalLanguage__Basque.tag(), Classifier::NaturalLanguage__Bengali.tag()),
{
    reveal_strlit("Natural Language :: Basque");
    reveal_strlit("Natural Language :: Bengali");
    reveal_with_fuel(lex_lt_from, 23);
}

proof fn lex_adj_352()
    ensures
        lex_lt(Classifier::NaturalLanguage__Bengali.tag(), Classifier::NaturalLanguage__Bosnian.tag()),
{
    reveal_strlit("Natural Language :: Bengali");
    reveal_strlit("Natural Language :: Bosnian");
    reveal_with_fuel(lex_lt_from, 23);
}

proof fn lex_adj_353()
    ensures
        lex_lt(Classifier::NaturalLanguage__Bosnian.tag(), Classifier::NaturalLanguage__Bulgarian.tag()),
{
    reveal_strlit("Natural Language :: Bosnian");
    reveal_strlit("Natural Language :: Bulgarian");
    reveal_with_fuel(lex_lt_from, 23);
}

proof fn lex_adj_354()
    ensures
        lex_lt(Classifier::NaturalLanguage__Bulgarian.tag(), Classifier::NaturalLanguage__Cantonese.tag()),
{
    reveal_strlit("Natural Language :: Bulgarian");
    reveal_strlit("Natural Language :: Cantonese");
    reveal_with_fuel(lex_lt_from, 22);
}

proof fn lex_adj_355()
    ensures
        lex_lt(Classifier::NaturalLanguage__Cantonese.tag(), Classifier::NaturalLanguage__Catalan.tag()),
{
    reveal_strlit("Natural Language :: Cantonese");
    reveal_strlit("Natural Language :: Catalan");
    reveal_with_fuel(lex_lt_from, 24);
}

proof fn lex_adj_356()
    ensures
        lex_lt(Classifier::NaturalLanguage__Catalan.tag(), Classifier::NaturalLanguage__CatalanValencian.tag()),
{
    reveal_strlit("Natural Language :: Catalan");
    reveal_strlit("Natural Language :: Catalan (Valencian)");
    reveal_with_fuel(lex_lt_from, 29);
}

proof fn lex_adj_357()
    ensures
        lex_lt(Classifier::NaturalLanguage__CatalanValencian.tag(), Classifier::NaturalLanguage__ChineseSimplified.tag()),
{
    reveal_strlit("Natural Language :: Catalan (Valencian)");
    reveal_strlit("Natural Language :: Chinese (Simplified)");
    reveal_with_fuel(lex_lt_from, 23);
}

proof fn lex_adj_358()
    ensures
        lex_lt(Classifier::NaturalLanguage__ChineseSimplified.tag(), Classifier::NaturalLanguage__ChineseTraditional.tag()),
{
    reveal_strlit("Natural Language :: Chinese (Simplified)");
    reveal_strlit("Natural Language :: Chinese (Traditional)");
    reveal_with_fuel(lex_lt_from, 31);
}

proof fn lex_adj_359()
    ensures
        lex_lt(Classifier::NaturalLanguage__ChineseTraditional.tag(), Classifier::NaturalLanguage__Croatian.tag()),
{
    reveal_strlit("Natural Language :: Chinese (Traditional)");
    reveal_strlit("Natural Language :: Croatian");
    reveal_with_fuel(lex_lt_from, 23);
}

proof fn lex_adj_360()
    ensures
        lex_lt(Classifier::NaturalLanguage__Croatian.tag(), Classifier::NaturalLanguage__Czech.tag()),
{
    reveal_strlit("Natural Language :: Croatian");
    reveal_strlit("Natural Language :: Czech");
    reveal_with_fuel(lex_lt_from, 23);
}

proof fn lex_adj_361()
    ensures
        lex_lt(Classifier::NaturalLanguage__Czech.tag(), Classifier::NaturalLanguage__Danish.tag()),
{
    reveal_strlit("Natural Language :: Czech");
    reveal_strlit("Natural Language :: Danish");
    reveal_with_fuel(lex_lt_from, 22);
}

proof fn lex_adj_362()
    ensures
        lex_lt(Classifier::NaturalLanguage__Danish.tag(), Classifier::NaturalLanguage__Dutch.tag()),
{
    reveal_strlit("Natural Language :: Danish");
    reveal_strlit("Natural Language :: Dutch");
    reveal_with_fuel(lex_lt_from, 23);
}

proof fn lex_adj_363()
    ensures
        lex_lt(Classifier::NaturalLanguage__Dutch.tag(), Classifier::NaturalLanguage__English.tag()),
{
    reveal_strlit("Natural Language :: Dutch");
    reveal_strlit("Natural Language :: English");
    reveal_with_fuel(lex_lt_from, 22);
}

proof fn lex_adj_364()
    ensures
        lex_lt(Classifier::NaturalLanguage__English.tag(), Classifier::NaturalLanguage__Esperanto.tag()),
{
    reveal_strlit("Natural Language :: English");
    reveal_strlit("Natural Language :: Esperanto");
    reveal_with_fuel(lex_lt_from, 23);
}

proof fn lex_adj_365()
    ensures
        lex_lt(Classifier::NaturalLanguage__Esperanto.tag(), Classifier::NaturalLanguage__Finnish.tag()),
{
    reveal_strlit("Natural Language :: Esperanto");
    reveal_strlit("Natural Language :: Finnish");
    reveal_with_fuel(lex_lt_from, 22);
}

proof fn lex_adj_366()
    ensures
        lex_lt(Classifier::NaturalLanguage__Finnish.tag(), Classifier::NaturalLanguage__French.tag()),
{
    reveal_strlit("Natural Language :: Finnish");
    reveal_strlit("Natural Language :: French");
    reveal_with_fuel(lex_lt_from, 23);
}

proof fn lex_adj_367()
    ensures
        lex_lt(Classifier::NaturalLanguage__French.tag(), Classifier::NaturalLanguage__Galician.tag()),
{
    reveal_strlit("Natural Language :: French");
    reveal_strlit("Natural Language :: Galician");
    reveal_with_fuel(lex_lt_from, 22);
}

proof fn lex_adj_368()
    ensures
        lex_lt(Classifier::NaturalLanguage__Galician.tag(), Classifier::NaturalLanguage__Georgian.tag()),
{
    reveal_strlit("Natural Language :: Galician");
    reveal_strlit("Natural Language :: Georgian");
    reveal_with_fuel(lex_lt_from, 23);
}

proof fn lex_adj_369()
    ensures
        lex_lt(Classifier::NaturalLanguage__Georgian.tag(), Classifier::NaturalLanguage__German.tag()),
{
    reveal_strlit("Natural Language :: Georgian");
    reveal_strlit("Natural Language :: German");
    reveal_with_fuel(lex_lt_from, 24);
}

proof fn lex_adj_370()
    ensures
        lex_lt(Classifier::NaturalLanguage__German.tag(), Classifier::NaturalLanguage__Greek.tag()),
{
    reveal_strlit("Natural Language :: German");
    reveal_strlit("Natural Language :: Greek");
    reveal_with_fuel(lex_lt_from, 23);
}

proof fn lex_adj_371()
    ensures
        lex_lt(Classifier::NaturalLanguage__Greek.tag(), Classifier::NaturalLanguage__Hebrew.tag()),
{
    reveal_strlit("Natural Language :: Greek");
    reveal_strlit("Natural Language :: Hebrew");
    reveal_with_fuel(lex_lt_from, 22);
}

proof fn lex_adj_372()
    ensures
        lex_lt(Classifier::NaturalLanguage__Hebrew.tag(), Classifier::NaturalLanguage__Hindi.tag()),
{
    reveal_strlit("Natural Language :: Hebrew");
    reveal_strlit("Natural Language :: Hindi");
    reveal_with_fuel(lex_lt_from, 23);
}

proof fn lex_adj_373()
    ensures
        lex_lt(Classifier::NaturalLanguage__Hindi.tag(), Classifier::NaturalLanguage__Hungarian.tag()),
{
    reveal_strlit("Natural Language :: Hindi");
    reveal_strlit("Natural Language :: Hungarian");
    reveal_with_fuel(lex_lt_from, 23);
}

proof fn lex_adj_374()
    ensures
        lex_lt(Classifier::NaturalLanguage__Hungarian.tag(), Classifier::NaturalLanguage__Icelandic.tag()),
{
    reveal_strlit("Natural Language :: Hungarian");
    reveal_strlit("Natural Language :: Icelandic");
    reveal_with_fuel(lex_lt_from, 22);
}

proof fn lex_adj_375()
    ensures
        lex_lt(Classifier::NaturalLanguage__Icelandic.tag(), Classifier::NaturalLanguage__Indonesian.tag()),
{
    reveal_strlit("Natural Language :: Icelandic");
    reveal_strlit("Natural Language :: Indonesian");
    reveal_with_fuel(lex_lt_from, 23);
}

proof fn lex_adj_376()
    ensures
        lex_lt(Classifier::NaturalLanguage__Indonesian.tag(), Classifier::NaturalLanguage__Irish.tag()),
{
    reveal_strlit("Natural Language :: Indonesian");
    reveal_strlit("Natural Language :: Irish");
    reveal_with_fuel(lex_lt_from, 23);
}

proof fn lex_adj_377()
    ensures
        lex_lt(Classifier::NaturalLanguage__Irish.tag(), Classifier::NaturalLanguage__Italian.tag()),
{
    reveal_strlit("Natural Language :: Irish");
    reveal_strlit("Natural Language :: Italian");
    reveal_with_fuel(lex_lt_from, 23);
}

proof fn lex_adj_378()
    ensures
        lex_lt(Classifier::NaturalLanguage__Italian.tag(), Classifier::NaturalLanguage__Japanese.tag()),
{
    reveal_strlit("Natural Language :: Italian");
    reveal_strlit("Natural Language :: Japanese");
    reveal_with_fuel(lex_lt_from, 22);
}

proof fn lex_adj_379()
    ensures
        lex_lt(Classifier::NaturalLanguage__Japanese.tag(), Classifier::NaturalLanguage__Javanese.tag()),
{
    reveal_strlit("Natural Language :: Japanese");
    reveal_strlit("Natural Language :: Javanese");
    reveal_with_fuel(lex_lt_from, 24);
}

proof fn lex_adj_380()
    ensures
        lex_lt(Classifier::NaturalLanguage__Javanese.tag(), Classifier::NaturalLanguage__Korean.tag()),
{
    reveal_strlit("Natural Language :: Javanese");
    reveal_strlit("Natural Language :: Korean");
    reveal_with_fuel(lex_lt_from, 22);
}

proof fn lex_adj_381()
    ensures
        lex_lt(Classifier::NaturalLanguage__Korean.tag(), Classifier::NaturalLanguage__Latin.tag()),
{
    reveal_strlit("Natural Language :: Korean");
    reveal_strlit("Natural Language :: Latin");
    reveal_with_fuel(lex_lt_from, 22);
}

proof fn lex_adj_382()
    ensures
        lex_lt(Classifier::NaturalLanguage__Latin.tag(), Classifier::NaturalLanguage__Latvian.tag()),
{
    reveal_strlit("Natural Language :: Latin");
    reveal_strlit("Natural Language :: Latvian");
    reveal_with_fuel(lex_lt_from, 25);
}

proof fn lex_adj_383()
    ensures
        lex_lt(Classifier::NaturalLanguage__Latvian.tag(), Classifier::NaturalLanguage__Lithuanian.tag()),
{
    reveal_strlit("Natural Language :: Latvian");
    reveal_strlit("Natural Language :: Lithuanian");
    reveal_with_fuel(lex_lt_from, 23);
}

proof fn lex_adj_384()
    ensures
        lex_lt(Classifier::NaturalLanguage__Lithuanian.tag(), Classifier::NaturalLanguage__Macedonian.tag()),
{
    reveal_strlit("Natural Language :: Lithuanian");
    reveal_strlit("Natural Language :: Macedonian");
    reveal_with_fuel(lex_lt_from, 22);
}

proof fn lex_adj_385()
    ensures
        lex_lt(Classifier::NaturalLanguage__Macedonian.tag(), Classifier::NaturalLanguage__Malay.tag()),
{
    reveal_strlit("Natural Language :: Macedonian");
    reveal_strlit("Natural Language :: Malay");
    reveal_with_fuel(lex_lt_from, 24);
}

proof fn lex_adj_386()
    ensures
        lex_lt(Classifier::NaturalLanguage__Malay.tag(), Classifier::NaturalLanguage__Marathi.tag()),
{
    reveal_strlit("Natural Language :: Malay");
    reveal_strlit("Natural Language :: Marathi");
    reveal_with_fuel(lex_lt_from, 24);
}

proof fn lex_adj_387()
    ensures
        lex_lt(Classifier::NaturalLanguage__Marathi.tag(), Classifier::NaturalLanguage__Nepali.tag()),
{
    reveal_strlit("Natural Language :: Marathi");
    reveal_strlit("Natural Language :: Nepali");
    reveal_with_fuel(lex_lt_from, 22);
}

proof fn lex_adj_388()
    ensures
        lex_lt(Classifier::NaturalLanguage__Nepali.tag(), Classifier::NaturalLanguage__Norwegian.tag()),
{
    reveal_strlit("Natural Language :: Nepali");
    reveal_strlit("Natural Language :: Norwegian");
    reveal_with_fuel(lex_lt_from, 23);
}

proof fn lex_adj_389()
    ensures
        lex_lt(Classifier::NaturalLanguage__Norwegian.tag(), Classifier::NaturalLanguage__Panjabi.tag()),
{
    reveal_strlit("Natural Language :: Norwegian");
    reveal_strlit("Natural Language :: Panjabi");
    reveal_with_fuel(lex_lt_from, 22);
}

proof fn lex_adj_390()
    ensures
        lex_lt(Classifier::NaturalLanguage__Panjabi.tag(), Classifier::NaturalLanguage__Persian.tag()),
{
    reveal_strlit("Natural Language :: Panjabi");
    reveal_strlit("Natural Language :: Persian");
    reveal_with_fuel(lex_lt_from, 23);
}

proof fn lex_adj_391()
    ensures
        lex_lt(Classifier::NaturalLanguage__Persian.tag(), Classifier::NaturalLanguage__Polish.tag()),
{
    reveal_strlit("Natural Language :: Persian");
    reveal_strlit("Natural Language :: Polish");
    reveal_with_fuel(lex_lt_from, 23);
}

proof fn lex_adj_392()
    ensures
        lex_lt(Classifier::NaturalLanguage__Polish.tag(), Classifier::NaturalLanguage__Portuguese.tag()),
{
    reveal_strlit("Natural Language :: Polish");
    reveal_strlit("Natural Language :: Portuguese");
    reveal_with_fuel(lex_lt_from, 24);
}

proof fn lex_adj_393()
    ensures
        lex_lt(Classifier::NaturalLanguage__Portuguese.tag(), Classifier::NaturalLanguage__PortugueseBrazilian.tag()),
{
    reveal_strlit("Natural Language :: Portuguese");
    reveal_strlit("Natural Language :: Portuguese (Brazilian)");
    reveal_with_fuel(lex_lt_from, 32);
}

proof fn lex_adj_394()
    ensures
        lex_lt(Classifier::NaturalLanguage__PortugueseBrazilian.tag(), Classifier::NaturalLanguage__Romanian.tag()),
{
    reveal_strlit("Natural Language :: Portuguese (Brazilian)");
    reveal_strlit("Natural Language :: Romanian");
    reveal_with_fuel(lex_lt_from, 22);
}

proof fn lex_adj_395()
    ensures
        lex_lt(Classifier::NaturalLanguage__Romanian.tag(), Classifier::NaturalLanguage__Russian.tag()),
{
    reveal_strlit("Natural Language :: Romanian");
    reveal_strlit("Natural Language :: Russian");
    reveal_with_fuel(lex_lt_from, 23);
}

proof fn lex_adj_396()
    ensures
        lex_lt(Classifier::NaturalLanguage__Russian.tag(), Classifier::NaturalLanguage__Serbian.tag()),
{
    reveal_strlit("Natural Language :: Russian");
    reveal_strlit("Natural Language :: Serbian");
    reveal_with_fuel(lex_lt_from, 22);
}

proof fn lex_adj_397()
    ensures
        lex_lt(Classifier::NaturalLanguage__Serbian.tag(), Classifier::NaturalLanguage__Slovak.tag()),
{
    reveal_strlit("Natural Language :: Serbian");
    reveal_strlit("Natural Language :: Slovak");
    reveal_with_fuel(lex_lt_from, 23);
}

proof fn lex_adj_398()
    ensures
        lex_lt(Classifier::NaturalLanguage__Slovak.tag(), Classifier::NaturalLanguage__Slovenian.tag()),
{
    reveal_strlit("Natural Language :: Slovak");
    reveal_strlit("Natural Language :: Slovenian");
    reveal_with_fuel(lex_lt_from, 26);
}

proof fn lex_adj_399()
    ensures
        lex_lt(Classifier::NaturalLanguage__Slovenian.tag(), Classifier::NaturalLanguage__Spanish.tag()),
{
    reveal_strlit("Natural Language :: Slovenian");
    reveal_strlit("Natural Language :: Spanish");
    reveal_with_fuel(lex_lt_from, 23);
}

proof fn lex_adj_400()
    ensures
        lex_lt(Classifier::NaturalLanguage__Spanish.tag(), Classifier::NaturalLanguage__Swedish.tag()),
{
    reveal_strlit("Natural Language :: Spanish");
    reveal_strlit("Natural Language :: Swedish");
    reveal_with_fuel(lex_lt_from, 23);
}

proof fn lex_adj_401()
    ensures
        lex_lt(Classifier::NaturalLanguage__Swedish.tag(), Classifier::NaturalLanguage__Tamil.tag()),
{
    reveal_strlit("Natural Language :: Swedish");
    reveal_strlit("Natural Language :: Tamil");
    reveal_with_fuel(lex_lt_from, 22);
}

proof fn lex_adj_402()
    ensures
        lex_lt(Classifier::NaturalLanguage__Tamil.tag(), Classifier::NaturalLanguage__Telugu.tag()),
{
    reveal_strlit("Natural Language :: Tamil");
    reveal_strlit("Natural Language :: Telugu");
    reveal_with_fuel(lex_lt_from, 23);
}

proof fn lex_adj_403()
    ensures
        lex_lt(Classifier::NaturalLanguage__Telugu.tag(), Classifier::NaturalLanguage__Thai.tag()),
{
    reveal_strlit("Natural Language :: Telugu");
    reveal_strlit("Natural Language :: Thai");
    reveal_with_fuel(lex_lt_from, 23);
}

proof fn lex_adj_404()
    ensures
        lex_lt(Classifier::NaturalLanguage__Thai.tag(), Classifier::NaturalLanguage__Tibetan.tag()),
{
    reveal_strlit("Natural Language :: Thai");
    reveal_strlit("Natural Language :: Tibetan");
    reveal_with_fuel(lex_lt_from, 23);
}

proof fn lex_adj_405()
    ensures
        lex_lt(Classifier::NaturalLanguage__Tibetan.tag(), Classifier::NaturalLanguage__Turkish.tag()),
{
    reveal_strlit("Natural Language :: Tibetan");
    reveal_strlit("Natural Language :: Turkish");
    reveal_with_fuel(lex_lt_from, 23);
}

proof fn lex_adj_406()
    ensures
        lex_lt(Classifier::NaturalLanguage__Turkish.tag(), Classifier::NaturalLanguage__Ukrainian.tag()),
{
    reveal_strlit("Natural Language :: Turkish");
    reveal_strlit("Natural Language :: Ukrainian");
    reveal_with_fuel(lex_lt_from, 22);
}

proof fn lex_adj_407()
    ensures
        lex_lt(Classifier::NaturalLanguage__Ukrainian.tag(), Classifier::NaturalLanguage__Urdu.tag()),
{
    reveal_strlit("Natural Language :: Ukrainian");
    reveal_strlit("Natural Language :: Urdu");
    reveal_with_fuel(lex_lt_from, 23);
}

proof fn lex_adj_408()
    ensures
        lex_lt(Classifier::NaturalLanguage__Urdu.tag(), Classifier::NaturalLanguage__Vietnamese.tag()),
{
    reveal_strlit("Natural Language :: Urdu");
    reveal_strlit("Natural Language :: Vietnamese");
    reveal_with_fuel(lex_lt_from, 22);
}

proof fn lex_adj_409()
    ensures
        lex_lt(Classifier::NaturalLanguage__Vietnamese.tag(), Classifier::OperatingSystem__Android.tag()),
{
    reveal_strlit("Natural Language :: Vietnamese");
    reveal_strlit("Operating System :: Android");
    reveal_with_fuel(lex_lt_from, 2);
}

proof fn lex_adj_410()
    ensures
        lex_lt(Classifier::OperatingSystem__Android.tag(), Classifier::OperatingSystem__BeOS.tag()),
{
    reveal_strlit("Operating System :: Android");
    reveal_strlit("Operating System :: BeOS");
    reveal_with_fuel(lex_lt_from, 22);
}

proof fn lex_adj_411()
    ensures
        lex_lt(Classifier::OperatingSystem__BeOS.tag(), Classifier::OperatingSystem__MacOS.tag()),
{
    reveal_strlit("Operating System :: BeOS");
    reveal_strlit("Operating System :: MacOS");
    reveal_with_fuel(lex_lt_from, 22);
}

proof fn lex_adj_412()
    ensures
        lex_lt(Classifier::OperatingSystem__MacOS.tag(), Classifier::OperatingSystem__MacOS__MacOS9.tag()),
{
    reveal_strlit("Operating System :: MacOS");
    reveal_strlit("Operating System :: MacOS :: MacOS 9");
    reveal_with_fuel(lex_lt_from, 27);
}

proof fn lex_adj_413()
    ensures
        lex_lt(Classifier::OperatingSystem__MacOS__MacOS9.tag(), Classifier::OperatingSystem__MacOS__MacOSX.tag()),
{
    reveal_strlit("Operating System :: MacOS :: MacOS 9");
    reveal_strlit("Operating System :: MacOS :: MacOS X");
    reveal_with_fuel(lex_lt_from, 37);
}

proof fn lex_adj_414()
    ensures
        lex_lt(Classifier::OperatingSystem__MacOS__MacOSX.tag(), Classifier::OperatingSystem__Microsoft.tag()),
{
    reveal_strlit("Operating System :: MacOS :: MacOS X");
    reveal_strlit("Operating System :: Microsoft");
    reveal_with_fuel(lex_lt_from, 23);
}

proof fn lex_adj_415()
    ensures
        lex_lt(Classifier::OperatingSystem__Microsoft.tag(), Classifier::OperatingSystem__Microsoft__MSDOS.tag()),
{
    reveal_strlit("Operating System :: Microsoft");
    reveal_strlit("Operating System :: Microsoft :: MS-DOS");
    reveal_with_fuel(lex_lt_from, 31);
}

proof fn lex_adj_416()
    ensures
        lex_lt(Classifier::OperatingSystem__Microsoft__MSDOS.tag(), Classifier::OperatingSystem__Microsoft__Windows.tag()),
{
    reveal_strlit("Operating System :: Microsoft :: MS-DOS");
    reveal_strlit("Operating System :: Microsoft :: Windows");
    reveal_with_fuel(lex_lt_from, 35);
}

proof fn lex_adj_417()
    ensures
        lex_lt(Classifier::OperatingSystem__Microsoft__Windows.tag(), Classifier::OperatingSystem__Microsoft__Windows__Windows10.tag()),
{
    reveal_strlit("Operating System :: Microsoft :: Windows");
    reveal_strlit("Operating System :: Microsoft :: Windows :: Windows 10");
    reveal_with_fuel(lex_lt_from, 42);
}

proof fn lex_adj_418()
    ensures
        lex_lt(Classifier::OperatingSystem__Microsoft__Windows__Windows10.tag(), Classifier::OperatingSystem__Microsoft__Windows__Windows11.tag()),
{
    reveal_strlit("Operating System :: Microsoft :: Windows :: Windows 10");
    reveal_strlit("Operating System :: Microsoft :: Windows :: Windows 11");
    reveal_with_fuel(lex_lt_from, 55);
}

proof fn lex_adj_419()
    ensures
        lex_lt(Classifier::OperatingSystem__Microsoft__Windows__Windows11.tag(), Classifier::OperatingSystem__Microsoft__Windows__Windows3_1orEarlier.tag()),
{
    reveal_strlit("Operating System :: Microsoft :: Windows :: Windows 11");
    reveal_strlit("Operating System :: Microsoft :: Windows :: Windows 3.1 or Earlier");
    reveal_with_fuel(lex_lt_from, 54);
}

/// Adjacent tags within this stretch of the lexicographic order.
pub(crate) proof fn lemma_adjacent_lex_c(i: int)
    requires
        280 <= i < 420,
    ensures
        lex_lt(classifier_of_rank(i).tag(), classifier_of_rank(i + 1).tag()),
{
    if i == 280 {
        lex_adj_280();
    }
    if i == 281 {
        lex_adj_281();
    }
    if i == 282 {
        lex_adj_282();
    }
    if i == 283 {
        lex_adj_283();
    }
    if i == 284 {
        lex_adj_284();
    }
    if i == 285 {
        lex_adj_285();
    }
    if i == 286 {
        lex_adj_286();
    }
    if i == 287 {
        lex_adj_287();
    }
    if i == 288 {
        lex_adj_288();
    }
    if i == 289 {
        lex_adj_289();
    }
    if i == 290 {
        lex_adj_290();
    }
    if i == 291 {
        lex_adj_291();
    }
    if i == 292 {
        lex_adj_292();
    }
    if i == 293 {
        lex_adj_293();
    }
    if i == 294 {
        lex_adj_294();
    }
    if i == 295 {
        lex_adj_295();
    }
    if i == 296 {
        lex_adj_296();
    }
    if i == 297 {
        lex_adj_297();
    }
    if i == 298 {
        lex_adj_298();
    }
    if i == 299 {
        lex_adj_299();
    }
    if i == 300 {
        lex_adj_300();
    }
    if i == 301 {
        lex_adj_301();
    }
    if i == 302 {
        lex_adj_302();
    }
    if i == 303 {
        lex_adj_303();
    }
    if i == 304 {
        lex_adj_304();
    }
    if i == 305 {
        lex_adj_305();
    }
    if i == 306 {
        lex_adj_306();
    }
    if i == 307 {
        lex_adj_307();
    }
    if i == 308 {
        lex_adj_308();
    }
    if i == 309 {
        lex_adj_309();
    }
    if i == 310 {
        lex_adj_310();
    }
    if i == 311 {
        lex_adj_311();
    }
    if i == 312 {
        lex_adj_312();
    }
    if i == 313 {
        lex_adj_313();
    }
    if i == 314 {
        lex_adj_314();
    }
    if i == 315 {
        lex_adj_315();
    }
    if i == 316 {
        lex_adj_316();
    }
    if i == 317 {
        lex_adj_317();
    }
    if i == 318 {
        lex_adj_318();
    }
    if i == 319 {
        lex_adj_319();
    }
    if i == 320 {
        lex_adj_320();
    }
    if i == 321 {
        lex_adj_321();
    }
    if i == 322 {
        lex_adj_322();
    }
    if i == 323 {
        lex_adj_323();
    }
    if i == 324 {
        lex_adj_324();
    }
    if i == 325 {
        lex_adj_325();
    }
    if i == 326 {
        lex_adj_326();
    }
    if i == 327 {
        lex_adj_327();
    }
    if i == 328 {
        lex_adj_328();
    }
    if i == 329 {
        lex_adj_329();
    }
    if i == 330 {
        lex_adj_330();
    }
    if i == 331 {
        lex_adj_331();
    }
    if i == 332 {
        lex_adj_332();
    }
    if i == 333 {
        lex_adj_333();
    }
    if i == 334 {
        lex_adj_334();
    }
    if i == 335 {
        lex_adj_335();
    }
    if i == 336 {
        lex_adj_336();
    }
    if i == 337 {
        lex_adj_337();
    }
    if i == 338 {
        lex_adj_338();
    }
    if i == 339 {
        lex_adj_339();
    }
    if i == 340 {
        lex_adj_340();
    }
    if i == 341 {
        lex_adj_341();
    }
    if i == 342 {
        lex_adj_342();
    }
    if i == 343 {
        lex_adj_343();
    }
    if i == 344 {
        lex_adj_344();
    }
    if i == 345 {
        lex_adj_345();
    }
    if i == 346 {
        lex_adj_346();
    }
    if i == 347 {
        lex_adj_347();
    }
    if i == 348 {
        lex_adj_348();
    }
    if i == 349 {
        lex_adj_349();
    }
    if i == 350 {
        lex_adj_350();
    }
    if i == 351 {
        lex_adj_351();
    }
    if i == 352 {
        lex_adj_352();
    }
    if i == 353 {
        lex_adj_353();
    }
    if i == 354 {
        lex_adj_354();
    }
    if i == 355 {
        lex_adj_355();
    }
    if i == 356 {
        lex_adj_356();
    }
    if i == 357 {
        lex_adj_357();
    }
    if i == 358 {
        lex_adj_358();
    }
    if i == 359 {
        lex_adj_359();
    }
    if i == 360 {
        lex_adj_360();
    }
    if i == 361 {
        lex_adj_361();
    }
    if i == 362 {
        lex_adj_362();
    }
    if i == 363 {
        lex_adj_363();
    }
    if i == 364 {
        lex_adj_364();
    }
    if i == 365 {
        lex_adj_365();
    }
    if i == 366 {
        lex_adj_366();
    }
    if i == 367 {
        lex_adj_367();
    }
    if i == 368 {
        lex_adj_368();
    }
    if i == 369 {
        lex_adj_369();
    }
    if i == 370 {
        lex_adj_370();
    }
    if i == 371 {
        lex_adj_371();
    }
    if i == 372 {
        lex_adj_372();
    }
    if i == 373 {
        lex_adj_373();
    }
    if i == 374 {
        lex_adj_374();
    }
    if i == 375 {
        lex_adj_375();
    }
    if i == 376 {
        lex_adj_376();
    }
    if i == 377 {
        lex_adj_377();
    }
    if i == 378 {
        lex_adj_378();
    }
    if i == 379 {
        lex_adj_379();
    }
    if i == 380 {
        lex_adj_380();
    }
    if i == 381 {
        lex_adj_381();
    }
    if i == 382 {
        lex_adj_382();
    }
    if i == 383 {
        lex_adj_383();
    }
    if i == 384 {
        lex_adj_384();
    }
    if i == 385 {
        lex_adj_385();
    }
    if i == 386 {
        lex_adj_386();
    }
    if i == 387 {
        lex_adj_387();
    }
    if i == 388 {
        lex_adj_388();
    }
    if i == 389 {
        lex_adj_389();
    }
    if i == 390 {
        lex_adj_390();
    }
    if i == 391 {
        lex_adj_391();
    }
    if i == 392 {
        lex_adj_392();
    }
    if i == 393 {
        lex_adj_393();
    }
    if i == 394 {
        lex_adj_394();
    }
    if i == 395 {
        lex_adj_395();
    }
    if i == 396 {
        lex_adj_396();
    }
    if i == 397 {
        lex_adj_397();
    }
    if i == 398 {
        lex_adj_398();
    }
    if i == 399 {
        lex_adj_399();
    }
    if i == 400 {
        lex_adj_400();
    }
    if i == 401 {
        lex_adj_401();
    }
    if i == 402 {
        lex_adj_402();
    }
    if i == 403 {
        lex_adj_403();
    }
    if i == 404 {
        lex_adj_404();
    }
    if i == 405 {
        lex_adj_405();
    }
    if i == 406 {
        lex_adj_406();
    }
    if i == 407 {
        lex_adj_407();
    }
    if i == 408 {
        lex_adj_408();
    }
    if i == 409 {
        lex_adj_409();
    }
    if i == 410 {
        lex_adj_410();
    }
    if i == 411 {
        lex_adj_411();
    }
    if i == 412 {
        lex_adj_412();
    }
    if i == 413 {
        lex_adj_413();
    }
    if i == 414 {
        lex_adj_414();
    }
    if i == 415 {
        lex_adj_415();
    }
    if i == 416 {
        lex_adj_416();
    }
    if i == 417 {
        lex_adj_417();
    }
    if i == 418 {
        lex_adj_418();
    }
    if i == 419 {
        lex_adj_419();
    }
}

} // verus!
