//! The raw limb data of permutation width 4: the `(8 + 56) * 4`
//! additive round constants and the `4 * 4` row-major mixing matrix,
//! each entry a canonical field value below the modulus, little-endian in
//! four 64-bit limbs.

use vstd::prelude::*;

verus! {

use vstd::slice::slice_to_vec;

const C_T4: [[u64; 4]; 256] = [
    [10018390284920759269, 196898842818127395, 5249540449481148995, 1853312570062057576],
    [12486221224710452438, 2372038863109147677, 8230667498854222355, 2764611904404804029],
    [4466505105966356650, 4686185096558265002, 16210260819355521378, 1844031548168280073],
    [15002325471271702008, 5581154705073500415, 1229208533183169201, 1549225070791782920],
    [18309653156114024706, 798761732958817262, 6904962453156279281, 3335412762186210716],
    [2824096028161810206, 14640933461146357672, 957840840567621315, 1024001058677493842],
    [14339023814126516630, 12239068001133297662, 428134084092645147, 2673682960814460689],
    [6214865908119297870, 17923963059035301363, 10985380589240272449, 1430464474809378870],
    [5109255232332580664, 11913027714091798733, 4449570166290740355, 864862123557185234],
    [2323272968957708806, 354488099726909104, 115174089281514891, 80808271106704719],
    [9646436663147525449, 3404572679246369876, 2350204275212843361, 1069216089054537871],
    [5059356740217174171, 4245857056683447103, 2426504795124362174, 350059533408463330],
    [14876286709841668328, 6932857857384975351, 7976037835777844091, 738350885205242785],
    [16522097747524989503, 4157368317794149558, 10343110624935622906, 2709590753056582169],
    [8805379462752425633, 8594508728147436821, 15629690186821248127, 2936193411053712582],
    [17046614324338172999, 14086280776151114414, 2804088968006330580, 728643340397380469],
    [12986735346000814543, 6140074342411686364, 6041575944194691717, 896092723329689904],
    [9573905030842087441, 12243211539080976096, 15287161151491266826, 1310836290481124728],
    [8865134002163281525, 6813849753829831047, 9066778847678578696, 2801725307463304665],
    [4931814869361681093, 13712769805002511750, 1776191062268299644, 2068661504023016414],
    [8161631444256445904, 3049786034047984668, 1021328518293651309, 2147500022207188878],
    [12766468767470212468, 926098071429114297, 17691598410912255471, 76565467953470566],
    [15547843034426617484, 13465733818561903358, 11157089789589945854, 3107062195097242290],
    [16908372174309343397, 17264932925429761530, 11508063480483774160, 2682419245684831641],
    [4870692136216401181, 17645600130793395310, 2758876031472241166, 874943362207641089],
    [4540479402638267003, 13477556963426049071, 6055112305493291757, 1810598527648098537],
    [7894770769272900997, 9595210915998428021, 7642295683223718917, 2210716392790471408],
    [10910178561156475899, 15811627963917441510, 16460518660187536520, 1698297851221778809],
    [7831732902708890908, 1464390598836302271, 8568564606321342514, 3007171090439369509],
    [12758232712903990792, 5937193763836963893, 4629415695575460109, 2476198378403296665],
    [16185652584871361881, 3161867062328690813, 8447947510117581907, 452436262606194895],
    [10531967515434376071, 5577695765815843856, 9164856352050088505, 1205339682110411496],
    [3898841196333713180, 14650521577519770525, 5736581618852866049, 1010789789328495026],
    [12103741763020280571, 14760208106156268938, 15246749619665902195, 1987439155030896717],
    [326429241861474059, 11335157279655967493, 16233357323017397007, 2124770605461456708],
    [13507610432344102875, 9765425316929074945, 10455054851855122687, 3371280263716451574],
    [9433430149246843174, 16916651192445074064, 12002862125451454299, 3293088726774108791],
    [15895963712096768440, 10975964170403460506, 7594578539046143282, 441635248990433378],
    [55564641555031451, 2316046008873247993, 6273091099984972305, 531938487375579818],
    [17845282940759944461, 6735239388814238924, 3181517889518583601, 2376846283559998361],
    [14097127963645492314, 1165420652731038559, 12527303660854712762, 2717289076364278965],
    [15600044695084040011, 255324662529267034, 11859356122961343981, 2571979992654075442],
    [1589817027469470176, 1086723465680833706, 6948011514366564799, 2482410610948543635],
    [6071201116374785253, 16554668458221199618, 16319484688832471879, 2792452762383364279],
    [13535048470209809113, 1831807297936988201, 16757520396573457190, 508291910620511162],
    [6946737468087619802, 14033399912488027565, 12701200401813783486, 1348363389498465135],
    [6788008051328210729, 13866524545426155292, 4317879914214157329, 2633928310905799638],
    [1183626302001490602, 10035686235057284266, 1656321729167440177, 1887128381037099784],
    [964566190254741199, 17650087760652370459, 14904592615785317921, 2929864473487096026],
    [13584300701347139198, 512534187550045064, 13489711551083721364, 41824696873363624],
    [17586611824788147557, 6430987250922925699, 9294838151373947091, 348446557360066429],
    [15025298913764434311, 14393211163878018166, 7154440178410267241, 3057088631006286899],
    [13451769229280519155, 17839347496757587523, 10553299811918798519, 2523373819901075642],
    [16267315463205810352, 13830706729545301172, 15413288900478726729, 287556136711008934],
    [4573780169675443044, 8758089751960064775, 2470295096511057988, 51551212240288730],
    [7093949836145798554, 12771428392262798771, 17021632567931004395, 1558106578814965657],
    [8205915653008540447, 10376314495036230740, 5774593793305666491, 2231830927015656581],
    [10783762484003267341, 10229708558604896492, 1831638669050696278, 2190429714552610800],
    [7310961803978392383, 12793746113455595394, 17036245927795997300, 3106081169494120044],
    [17421859032088162675, 7339791467855418851, 4622175020331968961, 590786792834928630],
    [14242884250645212438, 12806057845811725595, 7743423753614082490, 213381026777379804],
    [1110713325513004805, 8318407684973846516, 15952888485475298710, 1018983205230111328],
    [533883137631233338, 333001117808183237, 16968583542443855481, 329716098711096173],
    [4449676039486426793, 7760073051300251162, 5615103291054015906, 2516053143677338215],
    [16503526645482286870, 6358830762575712333, 12313512559299087688, 2716767262544184013],
    [5426798011730033104, 13085704829880126552, 6356732802364281819, 2175930396888807151],
    [8262282602783970021, 2576069526442506486, 14199683559983367515, 3432491072538425468],
    [14778817021916755205, 6110468871588391807, 2850248286812407967, 3411084787375678665],
    [4906200604739023933, 12096549814065429793, 5988343102643160344, 309820751832846301],
    [8709336210313678885, 10520000332606345601, 4756441214598660785, 2483744946546306397],
    [9617950371599090517, 6702332727289490762, 7078214601245292934, 215269160536524476],
    [14694170287735041964, 13462371741453101277, 7691247574208617782, 1078917709155142535],
    [17559938410729200952, 12326273425107991305, 8641129484519639030, 1699848340767391255],
    [3946956839294125797, 10123891284815211853, 3676846437799665248, 753827773683953838],
    [10815195850656127580, 17940782720817522247, 11666428030894512886, 2305765957929457259],
    [437280840171101279, 6885928680245806601, 6031863836827793624, 2698250255620259624],
    [16961604592822056794, 12516844188945734293, 2404426354458718742, 901141949721836097],
    [3152898413090790038, 16108523113696338432, 11492645026300260534, 1417477149741880787],
    [10578217394647568846, 6637113826221079930, 1364449097464563400, 2379869735503406314],
    [6332539588517624153, 17422837239624809585, 12296960536238467913, 2434905421004621494],
    [10311634121439582299, 2959376558854333994, 6697398963915560134, 417944321386245900],
    [16872849857899172004, 1640712307042701286, 16457516735210998920, 1084862449077757478],
    [10329879351081882815, 5178010365334480003, 7014208314719145622, 385149140585498380],
    [13199866221884806229, 10541991787372042848, 14909749656931548440, 708152185224876794],
    [1717216310632203061, 17455832130858697862, 5278085098799702411, 227655898188482835],
    [17164141620747686731, 16689913387728553544, 2568326884589391367, 3166155980659486882],
    [1233442753680249567, 15490006495937952898, 7249042245074469654, 2138985910652398451],
    [4115849303762846724, 2230284817967990783, 5095423606777193313, 1685862792723606183],
    [18087059749829081307, 14597940091345208276, 11798127311484826936, 3382732163134819975],
    [1691643954595343914, 11247744324691988234, 1707622876639858711, 2480528034929290191],
    [3851508649196064239, 17876067345026233181, 2887488286234095119, 1494319128927001460],
    [16523935542317028039, 13324220361730126584, 8371122380455762760, 3309018818741234613],
    [15551003374354129095, 4733249908186564525, 18168529914254682980, 3260751056816567734],
    [11254913643308260393, 10502246588649407704, 3799086616373140507, 874361864942043036],
    [8900047886550157555, 11072664836547990954, 14067690250186104876, 222120495052738670],
    [8862674475629615516, 15981292778298457016, 12707315746863502731, 820078558277844600],
    [319020525646737272, 13307653856642240278, 17864555577809705080, 2323294512214543786],
    [528913733934289222, 13438428507040452908, 3992004248394831445, 1892847789713859281],
    [13328028178140586, 13321926867853313751, 3819245912595584684, 249585818967781437],
    [4419507824394510725, 15491296526060492671, 7323441311493520434, 33789035094519140],
    [16850313695997997525, 13212925895639178375, 16969717250207688921, 1186502353743521213],
    [13071735289386612456, 937867514930142591, 338297992309721356, 1214967615784395659],
    [8072276821399088150, 12835106910674049377, 12882375598172350360, 23726925003953432],
    [1422103134736368268, 5972060781611222310, 3327741120806881763, 2462344296021899375],
    [1520550024709727173, 13222423213650094918, 6471594054199938885, 2900547158719341234],
    [5804579144463292523, 312232116955447702, 44072266925618011, 443414315285602586],
    [6172438645164754758, 2060767095070702602, 9776673209354320039, 433502090548086188],
    [3106863340529713165, 3204921228853971160, 18415230105665777666, 334730862702895825],
    [5466895657389284138, 18304437713220353520, 1285400929215246941, 1433021517987524568],
    [3420924115454337265, 10554697431561455965, 18140848270910970266, 79981240397196109],
    [11667892943350068910, 15378827967189494736, 2716130655971101605, 796329625544841029],
    [15585967042268697444, 13137141366443867411, 8082024980430782985, 1489529056035368393],
    [10992446072450441478, 138224143000960237, 18217951800741742472, 1876717591120043048],
    [2811521800456418823, 7206285738874881233, 8892713678098300901, 2847756496817017136],
    [11773876037318181465, 4541661022584540555, 6306836169905751871, 1651511859680343759],
    [4738709976041415754, 11141434812704456588, 5702683616473326790, 2695305801712532292],
    [13295380262981145560, 12355872011545154982, 12081814135484567415, 3002244520363334352],
    [16286908647809927556, 7660343138745399436, 15329123807288104192, 1567412250881355744],
    [16962696400723776719, 16674360835917832095, 613266670392544631, 1638603428702031454],
    [18439556095094824997, 13841863600186822152, 12881105544243265652, 205846478311636494],
    [1421596393284776217, 9670089260651961164, 8892365077566249889, 424642527071812767],
    [1174656589459585602, 13111961777171832740, 11010160508517699816, 2151038282169938108],
    [14785351810514061712, 10509749256713706405, 17745791112576401212, 109422259592528263],
    [12473402395094382828, 3981546577109849463, 6872073528861716252, 1484115331546415110],
    [18317077064691995805, 14913449958680164452, 17623596895715902442, 2734827927745965252],
    [14636684619416311376, 16730968059669888955, 4570969327469932201, 707935733096272276],
    [3006455902127606224, 11822286354056382123, 4297786762918050768, 3420439350374660530],
    [5978702745168944063, 1998810337363776705, 8348590052117104260, 1104467115195932484],
    [16039251789478834082, 1038491901047320342, 7332881201062291194, 2720734319770534994],
    [9889453805010587490, 4733166420935746511, 16386579815948162750, 3067000315321614250],
    [6135943761382356265, 7383331705498486994, 182268831961983977, 2081041303672646899],
    [3442174528586580054, 127768021078442829, 11860827353689030792, 2640806201107799091],
    [9161848213852793716, 9502732263284396375, 11511904210561473861, 2730639040471913229],
    [7464406005706715485, 6445986204771625364, 10612325414022949253, 2585060567289166458],
    [11049893713287239413, 9250777710965695546, 5311843568161138628, 447032443011861900],
    [14735198370254960933, 5149919212516786612, 13213290762788959515, 2833909042855306566],
    [13087145610003905781, 12389987606219446205, 9668150611494432222, 1567708440254857640],
    [8769832092537020222, 3922419636542440982, 13026535536833317566, 2765175409727047930],
    [10226545596341077950, 15237837378859331332, 17450524747430601511, 1426786253838892745],
    [11510299753779474109, 15648423234006941291, 17878397267458107527, 1686087287210284857],
    [16720173690211773789, 9424462116992110308, 17228629356371214127, 2428175180575224264],
    [10637134511767983964, 11242800519361680153, 4908564602791985560, 1734858341154991546],
    [4165526492516941448, 15226518715815154615, 15884846109142235074, 3152658976624961768],
    [1035863612704006206, 12976895843024868525, 6212786364173882366, 3304285567232300618],
    [10005631916186190839, 16762977863219942256, 483042612146611721, 2845911091306459233],
    [13510666336410935269, 12916258535049845584, 11316527754552285782, 958673525965206566],
    [12578708801015947020, 11476392957080179530, 4793646082078730863, 829861623373275572],
    [8368954597798115573, 2801668492221606245, 7928185876878687562, 1296573905590198696],
    [1661347606740312278, 16094588869337733251, 5559087869789274145, 2468015437555659234],
    [2002406138875656228, 12208073193810858486, 16172511668802172005, 805201680755746951],
    [11648526116807373857, 2092569519493367703, 15279680017188561003, 2457667794297898489],
    [15916552878365887188, 8400265427301508270, 4413844844380978440, 3465621380650955221],
    [17881105919101264368, 5995231121957490471, 12216544104261232595, 2591209649951794123],
    [10263136083366592059, 9863410988395927086, 2015399722589794803, 2816553220431107581],
    [14497305553569961148, 4401150916821698173, 345120779567927454, 682106606418554786],
    [16725317612241898289, 6868385450026281733, 170452525768695106, 1460548320601423832],
    [11533585941794454499, 13708952860559896594, 13742534273619525352, 2801321869310591600],
    [16098540659734549714, 68837467740084950, 3814064711874348696, 2496615949693424126],
    [11489937043019385047, 9134207088259910754, 7709431569153213043, 1678528579534425948],
    [15378815369136544647, 10169560859035861315, 1254527813982941824, 2139732686486537203],
    [4067667284746944465, 8027097857353886566, 10390007508266638866, 1526930346003824264],
    [9886256804720927831, 3957214837900214600, 11457652020877856409, 825273720773945845],
    [8922435769675346974, 6375612147484993400, 4995242859637458061, 3009066607375901792],
    [8637719193338729766, 8844650175977910963, 9584744566971233287, 3112221808291847163],
    [14942673260225526994, 8461147456600437287, 8897844479136715682, 1366515947882425003],
    [2304324338946818323, 6173591794042328196, 7035759562505791802, 2675386131426564671],
    [14307665510588266847, 12437752028785505171, 15972277002907396455, 2218544992262648300],
    [624560312293185317, 9493408516823400572, 4841190197548351044, 763839392792653358],
    [3565367490910848146, 571405999987496865, 606729989618056164, 562292334834148255],
    [6721810132034896803, 5313546692873814963, 5968801888617564891, 633255313806810761],
    [4035728573944667294, 11165912396443621843, 5285270876170160621, 2826000855337691059],
    [12245702703220489578, 10418007625547552787, 15170217045852219575, 1173652548850031088],
    [6963992341973233115, 16035181459457139950, 13901022825544142539, 1780327675184989282],
    [11887048032338337049, 12030373338541060530, 4903063948191501314, 3455025062474631634],
    [9951606279144162047, 16770912808200625105, 16531720941691714739, 3370367015516629298],
    [631015221670859870, 4776714374936325695, 16373639051681677933, 2763625555247573365],
    [2328780616525686684, 8614934655976826559, 11340700184122887784, 2595738753578164498],
    [8565169891571008535, 18281546118878910059, 9800255022221437893, 670077401787843630],
    [3678480084579115192, 5803856042855409286, 2502197757278418509, 3184280177206307932],
    [7683981478385642741, 5226122082337106334, 2724709414990864941, 119158915364822888],
    [17616941447736995787, 7869366046051367420, 5553690445668138620, 734809016286385130],
    [17064732684030364788, 14056325806675590261, 18353158459724902616, 1534283387411244685],
    [1415455234720958322, 11034697553301592284, 1952078964540452590, 2858252211571919883],
    [11329187203818480737, 6249834409763675988, 1912673301082184151, 3239219660216551472],
    [12719358865497538161, 5850737403655511787, 2107492751703142913, 3467332969984936267],
    [1704849561708626876, 3664888786442708493, 10037844209542279203, 2993745196209066589],
    [14920887292419025557, 15114443281475397642, 5549557518859781918, 1960805757712091128],
    [13555161582631241527, 12258506710131302076, 8449642417020347349, 993221926246727859],
    [625896906369790585, 14637106271608487994, 422374132680136568, 740954543177489948],
    [6078649022830123246, 1145162337946185076, 6959950705288931679, 758637870525025503],
    [9419993483735924061, 9810790349883058675, 17316674788286674479, 1971214646685895029],
    [13036445330247342955, 1673803854189541767, 5182484438622780522, 72089432943764509],
    [14351823125190380082, 8845232206820368363, 17799627044042300018, 3447918686569258420],
    [11234057375005780420, 8511050498564179161, 14039915112570352542, 2576062947883961043],
    [11468401263830344285, 12593004431246133479, 3214459584619915969, 1861181681126874117],
    [10493278677973794393, 10084293371263846448, 18292724474499654402, 3286238782581877786],
    [15772435725552599655, 2853356086045427740, 14158836739093231054, 2618784274335834894],
    [310180290368703285, 9304129411132879043, 6350173486904328226, 773556113925659269],
    [2102103242839957168, 1252471534676407056, 931063388181255411, 1860774294339572180],
    [11804967427389311432, 4530872927467054660, 624587641892097337, 1123558154106282006],
    [9950251026031115978, 18020401287390128360, 2742199922334115751, 1647129509260656568],
    [1740502732123791483, 17258713949348080957, 1652968360151151150, 2598488100394277305],
    [5114060257993093551, 16913972691740618175, 18333174632466487152, 728369784163925772],
    [14170300970818903885, 4095373524327219965, 12008940400080733386, 3334881845696561137],
    [6895368543510426294, 7438451633326870003, 9659276349790829025, 1616330404555883336],
    [17082427599758594415, 913330018831249409, 12620028449979343476, 1780097780460743247],
    [2440576134660978434, 5747551907442774914, 5265966416627793581, 620566218983837534],
    [15701527848304892113, 9942034399578495265, 12645105509567191775, 2606121003572721451],
    [8408086382523997243, 16918229844406252132, 13783252080351045782, 1679766864673039106],
    [8650332277023272043, 2923393798247047487, 7057991143640974973, 1671977243803338349],
    [11744605028750980786, 17336811244614932819, 17298095512771285028, 2201768377544572226],
    [13781288815197088097, 5879666315369048233, 16272866522462474503, 371979686145988871],
    [17752945385386925967, 16773510165179538811, 13798437426692318428, 2405614127507218480],
    [2431649435704700614, 12247865874662182020, 4389642990441486530, 1353143906027749231],
    [11292533156863168654, 12048194650434558407, 18210521867034541393, 2965132050029356719],
    [2141152992295375192, 13168662051870371831, 2112915122322738133, 57686144052558296],
    [12752061185225153355, 13146632332229278754, 15953228898560326314, 1755592556327667991],
    [1440681259053764127, 7455959725985909775, 8371029599828507160, 1496915276947903455],
    [15005678507503273118, 2961647472612508036, 16563083189985700124, 1095896715735947004],
    [867624000822817768, 9445230896058761402, 6769232364762513587, 1986045650897292807],
    [16793980290185781284, 18175554892156760243, 11815320694620334612, 1046709514597569548],
    [12719876333406082504, 3981116340966140694, 1032558712212934098, 3345152568137697143],
    [3235270470525863428, 18419689082252916631, 8941045840022285257, 420972154397804323],
    [14594241719175790600, 2138978708215668469, 7799413393191345420, 3000260487308225255],
    [5436741407933477652, 15884587357169328006, 8341692049766298956, 2987252677898154530],
    [14765549605422319580, 11717443854524401855, 12872138901986128172, 2220550621253837385],
    [15567970721324924571, 12549817771378911506, 7300320073330606062, 2051740309460947235],
    [18137306828541254703, 10129132284853846377, 8743216946413260529, 2191753406760997653],
    [10362117754252389365, 15003588778870996372, 16584292146351747678, 1882695578478064878],
    [3878886834973636972, 7218556758240584979, 18193023122632710550, 1806000448421554854],
    [3670231520872114555, 14370740168506259634, 4216031874442345151, 31060627329810165],
    [2233657878081548397, 18146550295609420163, 13759594780910591904, 796431701878345995],
    [3191680642632703901, 5387551707124450577, 1604230073230224596, 2723259064212077509],
    [602126742684059434, 17867877877025854664, 11166877134585354354, 1351619238070263309],
    [2154650112197077678, 16548804321914436024, 13311483468327444462, 1634570722071784361],
    [7553399159779977180, 8096214204325625281, 15458600426259187345, 87502732314826893],
    [13356031970608918665, 11387265826046624589, 7704137580768293191, 1601489866217783574],
    [9089156687021644662, 9325873694834017551, 1439153316335971334, 276460926712749379],
    [2636911312384286292, 17832598938988685692, 13029277307551076322, 1274214484122586692],
    [7217973157041260580, 7667112746676943433, 8774672420635971299, 1439385670256956052],
    [5795198734668976475, 6764106300381545484, 14431869472555671395, 1028917458975922077],
    [4178292235426418100, 13084952883411706155, 16018141439777827032, 1961775089259242535],
    [4921620798036603006, 17754425319824335429, 8205961119827003185, 3165386697124192725],
    [8320908517239250412, 12721289315251225250, 9997153959194077311, 3238264716804133807],
    [8447785023153615751, 9014606803370671536, 9836719943963572434, 3250428568094537642],
    [7137501526584210324, 17852502689704248878, 17592136596972909881, 456570858924221585],
    [7219187072465138536, 14726657982829893100, 5770150334882458603, 3284038860053914964],
    [4344223950627153291, 61613562035523724, 17828504851151794389, 1921299805207021840],
    [8705073189572905949, 2812884615077932192, 14359836866311691371, 179845228946293425],
    [208284969092561147, 11486327909402984504, 1574938258323442756, 3133751403457203131],
    [4574597420363930383, 5085599881153043953, 8973168100283762679, 899655753974327928],
    [11972780978748231800, 8799826700948803556, 7108850007176869408, 50760541399695228],
    [231734206753624021, 12718138108554634781, 16633507802992129151, 2180300950737339727],
    [12077945078567862, 2441425468131118729, 8281677366490978372, 1319691946544315340],
    [15527635912650175963, 10946903111623733220, 14912283569785481821, 1428827490177187947],
    [5081757460474398421, 5079375049711630438, 7526115622033988197, 1602937536327996483],
];

const M_T4: [[u64; 4]; 16] = [
    [9769558989247416493, 16565252363839940605, 9958898962517555741, 2552717700379466948],
    [4390385258812911129, 10844419161943762334, 14171052955486594283, 2843607864154932411],
    [9557855149468195938, 5848418228398144266, 830176943711826768, 161485854821576908],
    [8879538689549763265, 10011656847463815109, 15352039111291781015, 2104761180406443026],
    [17314577599372204556, 18346477388402037823, 13053048163652971304, 3059529030018236541],
    [8014382316945569550, 627369506834793328, 8710668102824499944, 592997363715428848],
    [7541839986222558063, 2654243558414584693, 9062540963752379309, 1899066707007035561],
    [8723316744271491247, 10687047034213259752, 9689249627916665550, 969505166981163003],
    [17538903595536411970, 5294776234988437058, 6425038848567247373, 2337482136946705135],
    [12944117837419347627, 499023354391579318, 17870410428075111897, 3321625001393700701],
    [18025723937318745608, 17502176093717372728, 9165783803354318065, 1128273817540809693],
    [4543046333068739563, 6269959438944906408, 2888652664128384694, 284825165950480742],
    [13441904791694243447, 10371896868661851640, 2632446402411070390, 3410454547762694515],
    [6442985728581388142, 13263184683363784449, 13832787558104280907, 2558339223781899289],
    [2341543658554445270, 2019458683841350626, 17199181642962620210, 94519923773959515],
    [13503511481480623402, 10062352967750810818, 15579616735936788351, 54429964343538493],
];

/// The shipped additive-constant data of width 4.
pub closed spec fn c4_data() -> Seq<[u64; 4]> {
    C_T4@
}

/// The shipped mixing-matrix data of width 4, row-major.
pub closed spec fn m4_data() -> Seq<[u64; 4]> {
    M_T4@
}

/// The additive round constants of width 4, pinned to the shipped data.
pub fn c_t4() -> (v: Vec<[u64; 4]>)
    ensures
        v@ == c4_data(),
        v@.len() == 256,
{
    slice_to_vec(C_T4.as_slice())
}

/// The mixing matrix of width 4, pinned to the shipped data.
pub fn m_t4() -> (v: Vec<[u64; 4]>)
    ensures
        v@ == m4_data(),
        v@.len() == 16,
{
    slice_to_vec(M_T4.as_slice())
}

} // verus!
